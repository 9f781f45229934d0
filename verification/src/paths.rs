//! The directories that the manager keeps its files in, each a function of the
//! user's home directory alone.
use crate::text::{
    chars_of, find_char, join2, last_at, last_index, last_segment, lemma_last_at_unique,
    lemma_last_index,
};
use vstd::prelude::*;

verus! {

/// The path of `name` inside the directory `base`: one separator is put
/// between the two unless `base` is empty or ends with one already.
pub open spec fn join(base: Seq<char>, name: Seq<char>) -> Seq<char> {
    if base.len() == 0 || base.last() == '/' {
        base + name
    } else {
        base + seq!['/'] + name
    }
}

/// The manager's own directory.
pub open spec fn zap_rs_home_of(home: Seq<char>) -> Seq<char> {
    join(home, ".local/share/zap-rs"@)
}

/// Where the records lie, one file for each installed bundle.
pub open spec fn index_dir_of(home: Seq<char>) -> Seq<char> {
    join(zap_rs_home_of(home), "index"@)
}

/// Where the bundles lie.
pub open spec fn appimages_dir_of(home: Seq<char>) -> Seq<char> {
    join(zap_rs_home_of(home), "appimages"@)
}

/// Where the manager keeps the desktop entries.
pub open spec fn desktops_dir_of(home: Seq<char>) -> Seq<char> {
    join(zap_rs_home_of(home), "desktops"@)
}

/// Where the manager keeps the icons.
pub open spec fn icons_dir_of(home: Seq<char>) -> Seq<char> {
    join(zap_rs_home_of(home), "icons"@)
}

/// The user's directory of executables.
pub open spec fn bin_dir_of(home: Seq<char>) -> Seq<char> {
    join(home, ".local/bin"@)
}

/// The directory that desktop environments read entries from.
pub open spec fn applications_dir_of(home: Seq<char>) -> Seq<char> {
    join(home, ".local/share/applications/"@)
}

/// The directory that a bundle is unpacked in, below the system's directory
/// for temporary files.
pub open spec fn scratch_dir_of(temp: Seq<char>) -> Seq<char> {
    join(temp, "zap-rs"@)
}

/// A name that names one entry of a directory and nothing else: it is not
/// empty, holds no separator, and is neither `.` nor `..`, which stand for
/// the directory itself and for the one above it.
pub open spec fn is_plain_name(name: Seq<char>) -> bool {
    &&& name.len() > 0
    &&& !name.contains('/')
    &&& name != seq!['.']
    &&& name != seq!['.', '.']
}

/// The directory `base` with the separator that `join` puts behind it.
pub open spec fn with_separator(base: Seq<char>) -> Seq<char> {
    if base.len() == 0 || base.last() == '/' {
        base
    } else {
        base + seq!['/']
    }
}

/// A plain name joined to a directory is an entry of that directory itself:
/// the path is the directory, its separator and the name, and the name is all
/// that follows the path's last separator.
pub proof fn lemma_plain_name_stays_in(base: Seq<char>, name: Seq<char>)
    requires
        is_plain_name(name),
    ensures
        join(base, name) == with_separator(base) + name,
        last_segment(join(base, name), '/') == name,
{
    let path = join(base, name);
    let cut = path.len() - name.len();
    assert(path =~= with_separator(base) + name);
    assert(path.skip(cut) =~= name);
    lemma_last_index(path, '/');
    if path.contains('/') {
        let at = last_index(path, '/');
        if at >= cut {
            assert(name[at - cut] == '/');
            assert(name.contains('/'));
        }
        if cut > 0 {
            assert(path[cut - 1] == '/');
            assert forall|j: int| cut - 1 < j < path.len() implies path[j] != '/' by {
                if path[j] == '/' {
                    assert(name[j - cut] == '/');
                    assert(name.contains('/'));
                }
            }
            assert(last_at(path, '/', cut - 1));
            lemma_last_at_unique(path, '/', cut - 1, at);
        } else {
            assert(path =~= name);
        }
    } else {
        if cut > 0 {
            assert(path[cut - 1] == '/');
            assert(path.contains('/'));
        }
        assert(path.skip(0) =~= path);
    }
}

/// Whether the name names one entry of a directory and nothing else.
pub fn is_plain(name: &str) -> (r: bool)
    ensures
        r == is_plain_name(name@),
{
    let chars = chars_of(name);
    if chars.len() == 0 {
        return false;
    }
    if find_char(&chars, '/').is_some() {
        return false;
    }
    if chars.len() == 1 && chars[0] == '.' {
        assert(name@ =~= seq!['.']);
        return false;
    }
    if chars.len() == 2 && chars[0] == '.' && chars[1] == '.' {
        assert(name@ =~= seq!['.', '.']);
        return false;
    }
    proof {
        if name@ == seq!['.'] {
            assert(name@.len() == 1 && name@[0] == '.');
        }
        if name@ == seq!['.', '.'] {
            assert(name@.len() == 2 && name@[0] == '.' && name@[1] == '.');
        }
    }
    true
}

/// The path of `name` inside the directory `base`.
pub fn join_path(base: &str, name: &str) -> (r: String)
    ensures
        r@ == join(base@, name@),
{
    let n: usize = base.unicode_len();
    if n == 0 || base.get_char(n - 1) == '/' {
        join2(base, name)
    } else {
        let mut r = join2(base, "/");
        proof {
            reveal_strlit("/");
            assert("/"@ =~= seq!['/']);
        }
        r.append(name);
        r
    }
}

/// The manager's own directory below `home`.
pub fn zap_rs_home(home: &str) -> (r: String)
    ensures
        r@ == zap_rs_home_of(home@),
{
    join_path(home, ".local/share/zap-rs")
}

/// The directory of the records below `home`.
pub fn index_dir(home: &str) -> (r: String)
    ensures
        r@ == index_dir_of(home@),
{
    let base = zap_rs_home(home);
    join_path(base.as_str(), "index")
}

/// The directory of the bundles below `home`.
pub fn appimages_dir(home: &str) -> (r: String)
    ensures
        r@ == appimages_dir_of(home@),
{
    let base = zap_rs_home(home);
    join_path(base.as_str(), "appimages")
}

/// The manager's directory of desktop entries below `home`.
pub fn desktops_dir(home: &str) -> (r: String)
    ensures
        r@ == desktops_dir_of(home@),
{
    let base = zap_rs_home(home);
    join_path(base.as_str(), "desktops")
}

/// The manager's directory of icons below `home`.
pub fn icons_dir(home: &str) -> (r: String)
    ensures
        r@ == icons_dir_of(home@),
{
    let base = zap_rs_home(home);
    join_path(base.as_str(), "icons")
}

/// The user's directory of executables below `home`.
pub fn bin_dir(home: &str) -> (r: String)
    ensures
        r@ == bin_dir_of(home@),
{
    join_path(home, ".local/bin")
}

/// The directory below `home` that desktop environments read entries from.
pub fn applications_dir(home: &str) -> (r: String)
    ensures
        r@ == applications_dir_of(home@),
{
    join_path(home, ".local/share/applications/")
}

/// The directory below `temp` that a bundle is unpacked in.
pub fn scratch_dir(temp: &str) -> (r: String)
    ensures
        r@ == scratch_dir_of(temp@),
{
    join_path(temp, "zap-rs")
}

} // verus!
