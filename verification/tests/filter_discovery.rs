use std::collections::HashMap;
use std::io::Write;

use rhai_script::FilterRuntime;
use rhai_script::RhaiScript;
use rhai_script::bindings::script_functions;
use rhai_script::errors::HostError;
use rhai_script::filters::apply_filter;
use rhai_script::filters::eligible_filter_names;

fn write_filter_script(dir: &tempfile::TempDir, content: &str) -> tempfile::NamedTempFile {
    let mut file = tempfile::Builder::new()
        .suffix(".rhai")
        .tempfile_in(dir.path())
        .unwrap();
    file.write_all(content.as_bytes()).unwrap();
    file.flush().unwrap();
    file
}

#[test]
fn only_public_single_parameter_functions_are_eligible() {
    let rt = FilterRuntime::new();
    let ast = rt
        .engine()
        .compile("private fn p(x) { 42 }\nfn good(x) { this }\nfn two(a, b) { 0 }")
        .unwrap();
    let fns = script_functions(&ast);
    assert_eq!(fns.len(), 3);
    let names = eligible_filter_names(&fns);
    assert_eq!(names, vec![String::from("good")]);
}

#[test]
fn registered_filter_renders_through_tera() {
    let dir = tempfile::tempdir().unwrap();
    let _file = write_filter_script(&dir, "fn shout(args) { this + \"!\" }");
    let mut tera = tera::Tera::default();
    let rt = FilterRuntime::new();
    RhaiScript::register_tera_filters(&mut tera, dir.path().to_str().unwrap(), &rt).unwrap();

    tera.add_raw_template("t", "{{ v | shout }}").unwrap();
    let mut ctx = tera::Context::new();
    ctx.insert("v", "x");
    assert_eq!(tera.render("t", &ctx).unwrap(), "x!");
}

#[test]
fn filter_sees_named_variables_as_sole_argument() {
    let dir = tempfile::tempdir().unwrap();
    let _a = write_filter_script(&dir, "fn tagged(args) { this + args.sep }");
    let mut tera = tera::Tera::default();
    let rt = FilterRuntime::new();
    RhaiScript::register_tera_filters(&mut tera, dir.path().to_str().unwrap(), &rt).unwrap();

    tera.add_raw_template("t1", "{{ v | tagged(sep=\"-\") }}").unwrap();
    let mut ctx = tera::Context::new();
    ctx.insert("v", "x");
    assert_eq!(tera.render("t1", &ctx).unwrap(), "x-");
}

#[test]
fn ineligible_functions_are_not_registered() {
    let dir = tempfile::tempdir().unwrap();
    let _file = write_filter_script(
        &dir,
        "private fn hidden(x) { 42 }\nfn visible(x) { this }\nfn pair(a, b) { 0 }",
    );
    let mut tera = tera::Tera::default();
    let rt = FilterRuntime::new();
    RhaiScript::register_tera_filters(&mut tera, dir.path().to_str().unwrap(), &rt).unwrap();

    let mut ctx = tera::Context::new();
    ctx.insert("v", "x");
    tera.add_raw_template("ok", "{{ v | visible }}").unwrap();
    assert_eq!(tera.render("ok", &ctx).unwrap(), "x");
    tera.add_raw_template("no1", "{{ v | hidden }}").unwrap();
    assert!(tera.render("no1", &ctx).is_err());
    tera.add_raw_template("no2", "{{ v | pair }}").unwrap();
    assert!(tera.render("no2", &ctx).is_err());
}

#[test]
fn scan_skips_subdirectories_and_other_extensions() {
    let dir = tempfile::tempdir().unwrap();
    let _sub = tempfile::tempdir_in(dir.path()).unwrap();
    let mut other = tempfile::Builder::new()
        .suffix(".txt")
        .tempfile_in(dir.path())
        .unwrap();
    other.write_all(b"this is not ( a script").unwrap();
    other.flush().unwrap();
    let _file = write_filter_script(&dir, "fn shouty(args) { this + \"!\" }");

    let mut tera = tera::Tera::default();
    let rt = FilterRuntime::new();
    let r = RhaiScript::register_tera_filters(&mut tera, dir.path().to_str().unwrap(), &rt);
    assert!(r.is_ok());

    tera.add_raw_template("t", "{{ v | shouty }}").unwrap();
    let mut ctx = tera::Context::new();
    ctx.insert("v", "y");
    assert_eq!(tera.render("t", &ctx).unwrap(), "y!");
}

#[test]
fn missing_filters_directory_fails_registration() {
    let mut tera = tera::Tera::default();
    let rt = FilterRuntime::new();
    let r = RhaiScript::register_tera_filters(&mut tera, "/no/such/filters/dir", &rt);
    match r {
        Err(HostError::MissingScriptsDir(p)) => assert_eq!(p, "/no/such/filters/dir"),
        _ => panic!("expected a missing-directory error"),
    }
}

#[test]
fn broken_script_aborts_the_whole_registration() {
    let dir = tempfile::tempdir().unwrap();
    let _good = write_filter_script(&dir, "fn fine(args) { this }");
    let _bad = write_filter_script(&dir, "fn broken( {");
    let mut tera = tera::Tera::default();
    let rt = FilterRuntime::new();
    let r = RhaiScript::register_tera_filters(&mut tera, dir.path().to_str().unwrap(), &rt);
    assert!(matches!(r, Err(HostError::FilterCompile(_, _))));
}

#[test]
fn apply_filter_round_trips_the_subject() {
    let rt = FilterRuntime::new();
    let ast = rt.engine().compile("fn idf(args) { this }").unwrap();
    let vars: HashMap<String, serde_json::Value> = HashMap::new();
    let out = apply_filter(
        rt.engine(),
        &ast,
        "idf",
        &serde_json::Value::from("s"),
        &vars,
    );
    assert_eq!(out.unwrap(), serde_json::Value::from("s"));
}

#[test]
fn apply_filter_surfaces_failures_as_text() {
    let rt = FilterRuntime::new();
    let ast = rt.engine().compile("fn bad(args) { throw \"no\"; }").unwrap();
    let vars: HashMap<String, serde_json::Value> = HashMap::new();
    let out = apply_filter(
        rt.engine(),
        &ast,
        "bad",
        &serde_json::Value::from("s"),
        &vars,
    );
    assert!(out.is_err());
}

#[test]
fn host_configured_engine_reaches_filter_scripts() {
    let dir = tempfile::tempdir().unwrap();
    let _file = write_filter_script(&dir, "fn tr(args) { t(this, \"de\") }");
    let mut engine = rhai::Engine::new();
    engine.register_fn("t", |key: &str, lang: &str| format!("{}:{}", key, lang));
    let rt = FilterRuntime::from_engine(engine);
    let mut tera = tera::Tera::default();
    RhaiScript::register_tera_filters(&mut tera, dir.path().to_str().unwrap(), &rt).unwrap();

    tera.add_raw_template("t", "{{ v | tr }}").unwrap();
    let mut ctx = tera::Context::new();
    ctx.insert("v", "hello");
    assert_eq!(tera.render("t", &ctx).unwrap(), "hello:de");
}
