//! Local paths as component lists, and their projection onto remote paths.
use vstd::prelude::*;

verus! {

/// The character sequence of each string in `v`.
pub open spec fn views(v: Seq<String>) -> Seq<Seq<char>> {
    v.map_values(|s: String| s@)
}

/// A local file-system path, held as its list of components.
pub struct LocalPath {
    pub components: Vec<String>,
}

impl View for LocalPath {
    type V = Seq<Seq<char>>;

    open spec fn view(&self) -> Seq<Seq<char>> {
        views(self.components@)
    }
}

/// The path left after dropping the first `n` components (empty when the
/// path has `n` components or fewer).
pub open spec fn offset_spec(p: Seq<Seq<char>>, n: int) -> Seq<Seq<char>> {
    if n <= p.len() {
        p.subrange(n, p.len() as int)
    } else {
        Seq::empty()
    }
}

/// Whether a file name carries an extension: a `.` after its first
/// character, the name `..` excepted.
pub open spec fn has_extension(name: Seq<char>) -> bool {
    &&& !(name.len() == 2 && name[0] == '.' && name[1] == '.')
    &&& exists|i: int| 0 < i < name.len() && name[i] == '.'
}

/// A relative path names a payload file: it is not empty and its final
/// component has an extension.
pub open spec fn is_payload(rel: Seq<Seq<char>>) -> bool {
    rel.len() > 0 && has_extension(rel.last())
}

/// Every backslash turned into a forward slash.
pub open spec fn normalize(s: Seq<char>) -> Seq<char> {
    s.map_values(|c: char| if c == '\\' { '/' } else { c })
}

/// The components joined by forward slashes.
pub open spec fn join(parts: Seq<Seq<char>>) -> Seq<char>
    decreases parts.len(),
{
    if parts.len() == 0 {
        Seq::empty()
    } else if parts.len() == 1 {
        parts[0]
    } else {
        join(parts.drop_last()) + seq!['/'] + parts.last()
    }
}

/// The remote path of relative path `rel` under remote directory `root`,
/// as sent on the wire.
pub open spec fn remote_spec(root: Seq<char>, rel: Seq<Seq<char>>) -> Seq<char> {
    normalize(root + seq!['/'] + join(rel))
}

impl LocalPath {
    /// The path without its first `n` components.
    pub fn offset(&self, n: usize) -> (r: LocalPath)
        ensures
            r@ == offset_spec(self@, n as int),
    {
        let mut out: Vec<String> = Vec::new();
        let len = self.components.len();
        if n <= len {
            let mut i: usize = n;
            while i < len
                invariant
                    n <= i <= len,
                    len == self.components@.len(),
                    views(out@) == self@.subrange(n as int, i as int),
                decreases len - i,
            {
                let c = self.components[i].clone();
                let ghost before = out@;
                out.push(c);
                assert(out@ == before.push(c));
                assert(views(out@) =~= views(before).push(c@));
                assert(views(out@) =~= self@.subrange(n as int, i + 1));
                i = i + 1;
            }
        } else {
            assert(views(out@) =~= Seq::<Seq<char>>::empty());
        }
        LocalPath { components: out }
    }

    /// The number of components.
    pub fn len(&self) -> (r: usize)
        ensures
            r == self@.len(),
    {
        self.components.len()
    }
}

/// Whether a file name carries an extension.
pub fn name_has_extension(name: &str) -> (r: bool)
    ensures
        r == has_extension(name@),
{
    let len = name.unicode_len();
    if len == 2 && name.get_char(0) == '.' && name.get_char(1) == '.' {
        return false;
    }
    let mut i: usize = 1;
    while i < len
        invariant
            len == name@.len(),
            1 <= i,
            !(name@.len() == 2 && name@[0] == '.' && name@[1] == '.'),
            forall|j: int| 0 < j < i && j < len ==> name@[j] != '.',
        decreases len - i,
    {
        if name.get_char(i) == '.' {
            assert(0 < i < name@.len() && name@[i as int] == '.');
            return true;
        }
        i = i + 1;
    }
    false
}

/// Whether a relative path names a payload file.
pub fn is_payload_path(rel: &LocalPath) -> (r: bool)
    ensures
        r == is_payload(rel@),
{
    let len = rel.components.len();
    if len == 0 {
        false
    } else {
        name_has_extension(rel.components[len - 1].as_str())
    }
}

/// Relies on `str::replace`: every occurrence of the pattern is replaced,
/// here each backslash by a forward slash.
#[verifier::external_body]
fn replace_backslashes(s: &str) -> (r: String)
    ensures
        r@ == normalize(s@),
{
    s.replace("\\", "/")
}

/// The components of `rel` joined by forward slashes.
pub fn join_components(rel: &LocalPath) -> (r: String)
    ensures
        r@ == join(rel@),
{
    let mut out = String::new();
    let len = rel.components.len();
    let mut i: usize = 0;
    proof {
        reveal_strlit("/");
    }
    while i < len
        invariant
            len == rel@.len(),
            i <= len,
            out@ == join(rel@.subrange(0, i as int)),
            "/"@ == seq!['/'],
        decreases len - i,
    {
        let ghost prev = rel@.subrange(0, i as int);
        let ghost next = rel@.subrange(0, i + 1);
        assert(next.drop_last() =~= prev);
        if i > 0 {
            out.append("/");
        }
        out.append(rel.components[i].as_str());
        proof {
            if i == 0 {
                assert(out@ =~= join(next));
            } else {
                assert(out@ =~= join(next));
            }
        }
        i = i + 1;
    }
    assert(rel@.subrange(0, len as int) =~= rel@);
    out
}

/// The wire form of the remote path of `rel` under `root`.
pub fn remote_path(root: &str, rel: &LocalPath) -> (r: String)
    ensures
        r@ == remote_spec(root@, rel@),
{
    proof {
        reveal_strlit("/");
    }
    let joined = join_components(rel);
    let mut full = String::from_str(root);
    full.append("/");
    full.append(joined.as_str());
    replace_backslashes(full.as_str())
}

/// Projection round trip: for a path `p` below local root `root`, the remote
/// path of `p` made relative to `root` starts with the (normalized) remote
/// root and a slash, and what follows is `p`'s path relative to `root`,
/// joined by forward slashes and normalized.
pub proof fn lemma_projection_round_trip(
    root: Seq<Seq<char>>,
    p: Seq<Seq<char>>,
    remote_root: Seq<char>,
)
    requires
        root.len() <= p.len(),
        p.subrange(0, root.len() as int) == root,
    ensures
        ({
            let rel = offset_spec(p, root.len() as int);
            let r = remote_spec(remote_root, rel);
            &&& p == root + rel
            &&& r.subrange(0, remote_root.len() as int) == normalize(remote_root)
            &&& r[remote_root.len() as int] == '/'
            &&& r.subrange(remote_root.len() + 1int, r.len() as int) == normalize(
                join(p.subrange(root.len() as int, p.len() as int)),
            )
        }),
{
    let rel = offset_spec(p, root.len() as int);
    let whole = remote_root + seq!['/'] + join(rel);
    let r = remote_spec(remote_root, rel);
    assert(p =~= root + rel);
    assert(r.len() == whole.len());
    assert(r.subrange(0, remote_root.len() as int) =~= normalize(remote_root));
    assert(whole[remote_root.len() as int] == '/');
    assert(r.subrange(remote_root.len() + 1int, r.len() as int) =~= normalize(join(rel)));
}

} // verus!
