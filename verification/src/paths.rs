//! Script path resolution.
//!
//! A script is named by a filesystem-relative identifier. The name is
//! joined to the scripts root with a `/` separator, and the fixed `.rhai`
//! extension is appended when the name's last component carries none.
//! All reasoning is done on the UTF-8 bytes of the path, where both the
//! separator and the extension are plain ASCII.

use vstd::prelude::*;
use vstd::string::StringSliceAdditionalSpecFns;

verus! {

/// Byte value of the path separator `/`.
pub const SEP: u8 = 47;

/// Byte value of `.`.
pub const DOT: u8 = 46;

/// The bytes of the script extension suffix `.rhai`.
pub open spec fn rhai_suffix() -> Seq<u8> {
    seq![46u8, 114u8, 104u8, 97u8, 105u8]
}

/// Whether the last `/`-separated component of `s` carries an extension:
/// a `.` that does not stand first in the component. A component `.conf`
/// has no extension, while `a.txt` and `a.` both do.
pub open spec fn component_has_dot(s: Seq<u8>) -> bool
    decreases s.len(),
{
    if s.len() <= 1 {
        false
    } else if s[s.len() - 1] == SEP {
        false
    } else if s[s.len() - 1] == DOT && s[s.len() - 2] != SEP {
        true
    } else {
        component_has_dot(s.drop_last())
    }
}

/// The normalized script name: unchanged when its last component already
/// has an extension, with `.rhai` appended otherwise.
pub open spec fn normalized_name(name: Seq<u8>) -> Seq<u8> {
    if component_has_dot(name) {
        name
    } else {
        name + rhai_suffix()
    }
}

/// The full path of a script: the scripts root, a separator, and the
/// normalized name.
pub open spec fn resolved_path(root: Seq<u8>, name: Seq<u8>) -> Seq<u8> {
    root + seq![SEP] + normalized_name(name)
}

/// Whether `p` names a script file: its last component ends in `.rhai`,
/// and that dot does not stand first in the component.
pub open spec fn is_rhai_path(p: Seq<u8>) -> bool {
    &&& p.len() >= 6
    &&& p.subrange(p.len() - 5, p.len() as int) == rhai_suffix()
    &&& p[p.len() - 6] != SEP
}

/// The UTF-8 bytes of a string slice, as an owned vector.
pub fn str_to_bytes(s: &str) -> (r: Vec<u8>)
    ensures
        r@ == s.spec_bytes(),
{
    vstd::slice::slice_to_vec(s.as_bytes())
}

/// True when the last `/`-separated component of `s` holds a `.` past its
/// first byte.
pub fn bytes_component_has_dot(s: &Vec<u8>) -> (r: bool)
    ensures
        r == component_has_dot(s@),
{
    let mut i: usize = s.len();
    proof {
        assert(s@.take(i as int) =~= s@);
    }
    loop
        invariant
            i <= s.len(),
            component_has_dot(s@) == component_has_dot(s@.take(i as int)),
        decreases i,
    {
        if i <= 1 {
            return false;
        }
        let b = s[i - 1];
        if b == SEP {
            return false;
        }
        if b == DOT && s[i - 2] != SEP {
            return true;
        }
        proof {
            assert(s@.take(i as int).drop_last() =~= s@.take(i as int - 1));
        }
        i = i - 1;
    }
}

/// Copy all bytes of `src` onto the end of `dst`.
fn extend_bytes(dst: &mut Vec<u8>, src: &Vec<u8>)
    ensures
        final(dst)@ == old(dst)@ + src@,
{
    let mut j: usize = 0;
    while j < src.len()
        invariant
            j <= src.len(),
            dst@ == old(dst)@ + src@.take(j as int),
        decreases src.len() - j,
    {
        dst.push(src[j]);
        proof {
            assert(old(dst)@ + src@.take(j as int) + seq![src@[j as int]] =~= old(dst)@
                + src@.take(j as int + 1));
        }
        j = j + 1;
    }
    proof {
        assert(src@.take(src@.len() as int) =~= src@);
    }
}

/// Append the `.rhai` suffix bytes to `out`.
fn push_rhai_suffix(out: &mut Vec<u8>)
    ensures
        final(out)@ == old(out)@ + rhai_suffix(),
{
    out.push(DOT);
    out.push(114);
    out.push(104);
    out.push(97);
    out.push(105);
    proof {
        assert(out@ =~= old(out)@ + rhai_suffix());
    }
}

/// Resolve a script name against the scripts root: join with `/` and
/// append the `.rhai` extension when the name has none.
pub fn resolve_script_path(root: &Vec<u8>, name: &Vec<u8>) -> (r: Vec<u8>)
    ensures
        r@ == resolved_path(root@, name@),
{
    let mut out: Vec<u8> = Vec::new();
    extend_bytes(&mut out, root);
    out.push(SEP);
    proof {
        assert(out@ =~= root@ + seq![SEP]);
    }
    extend_bytes(&mut out, name);
    if !bytes_component_has_dot(name) {
        push_rhai_suffix(&mut out);
        proof {
            assert(out@ =~= root@ + seq![SEP] + (name@ + rhai_suffix()));
        }
    } else {
        proof {
            assert(out@ =~= root@ + seq![SEP] + name@);
        }
    }
    out
}

/// True when `p` ends in `.rhai` with the dot past the first byte of the
/// last component.
pub fn bytes_is_rhai_path(p: &Vec<u8>) -> (r: bool)
    ensures
        r == is_rhai_path(p@),
{
    let n = p.len();
    if n < 6 {
        return false;
    }
    let r = p[n - 5] == DOT && p[n - 4] == 114 && p[n - 3] == 104 && p[n - 2] == 97 && p[n - 1]
        == 105 && p[n - 6] != SEP;
    proof {
        let tail = p@.subrange(p@.len() - 5, p@.len() as int);
        assert(tail.len() == 5);
        assert(tail[0] == p@[p@.len() - 5]);
        assert(tail[1] == p@[p@.len() - 4]);
        assert(tail[2] == p@[p@.len() - 3]);
        assert(tail[3] == p@[p@.len() - 2]);
        assert(tail[4] == p@[p@.len() - 1]);
        if r {
            assert(tail =~= rhai_suffix());
        }
    }
    r
}

} // verus!
