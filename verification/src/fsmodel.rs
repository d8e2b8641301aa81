//! A value-level model of the persistent state the installer mutates: the
//! toolchain root as a map from file paths to contents, and the chaining
//! tool's registry as a map from stable names to directories. The driver's
//! filesystem actions are specified against these effects, and the laws
//! below state what the effects guarantee: extraction is idempotent and
//! never merges with a stale tree, and linking replaces a registration
//! rather than merging with it.

use vstd::prelude::*;

use crate::text::starts_with_spec;

verus! {

/// `p` lies strictly inside directory `dir`.
pub open spec fn path_under(dir: Seq<char>, p: Seq<char>) -> bool {
    starts_with_spec(p, dir + "/"@)
}

/// The path of an archive entry `q` once unpacked under `dest`.
pub open spec fn dest_path(dest: Seq<char>, q: Seq<char>) -> Seq<char> {
    dest + "/"@ + q
}

/// The filesystem after extracting `archive` into `dest`: whatever stood
/// under `dest` is gone first (remove, never merge), every archive entry
/// sits at its destination path, and nothing outside `dest` changes. The
/// direct-install copy into its fixed home follows the same shape.
pub open spec fn extract_effect(
    fs: Map<Seq<char>, Seq<u8>>,
    dest: Seq<char>,
    archive: Map<Seq<char>, Seq<u8>>,
) -> Map<Seq<char>, Seq<u8>> {
    Map::new(
        |p: Seq<char>|
            (fs.dom().contains(p) && !path_under(dest, p)) || (path_under(dest, p)
                && archive.dom().contains(p.skip(dest.len() + 1 as int))),
        |p: Seq<char>|
            if path_under(dest, p) {
                archive[p.skip(dest.len() + 1 as int)]
            } else {
                fs[p]
            },
    )
}

/// Extraction is idempotent: extracting the same archive into the same
/// destination a second time yields a byte-identical tree.
pub proof fn lemma_extract_idempotent(
    fs: Map<Seq<char>, Seq<u8>>,
    dest: Seq<char>,
    archive: Map<Seq<char>, Seq<u8>>,
)
    ensures
        extract_effect(extract_effect(fs, dest, archive), dest, archive) == extract_effect(
            fs,
            dest,
            archive,
        ),
{
    assert(extract_effect(extract_effect(fs, dest, archive), dest, archive) =~= extract_effect(
        fs,
        dest,
        archive,
    ));
}

/// No stale file survives at the destination: after extraction a path
/// under `dest` is present exactly when the archive holds its relative
/// remainder, and then with the archive's bytes.
pub proof fn lemma_extract_replaces(
    fs: Map<Seq<char>, Seq<u8>>,
    dest: Seq<char>,
    archive: Map<Seq<char>, Seq<u8>>,
    p: Seq<char>,
)
    requires
        path_under(dest, p),
    ensures
        extract_effect(fs, dest, archive).dom().contains(p) <==> archive.dom().contains(
            p.skip(dest.len() + 1 as int),
        ),
        extract_effect(fs, dest, archive).dom().contains(p) ==> extract_effect(fs, dest, archive)[p]
            == archive[p.skip(dest.len() + 1 as int)],
{
}

/// Everything outside the destination is untouched by an extraction.
pub proof fn lemma_extract_preserves_outside(
    fs: Map<Seq<char>, Seq<u8>>,
    dest: Seq<char>,
    archive: Map<Seq<char>, Seq<u8>>,
    p: Seq<char>,
)
    requires
        !path_under(dest, p),
    ensures
        extract_effect(fs, dest, archive).dom().contains(p) <==> fs.dom().contains(p),
        fs.dom().contains(p) ==> extract_effect(fs, dest, archive)[p] == fs[p],
{
}

/// Every archive entry is reachable at its destination path afterwards.
pub proof fn lemma_extract_entry(
    fs: Map<Seq<char>, Seq<u8>>,
    dest: Seq<char>,
    archive: Map<Seq<char>, Seq<u8>>,
    q: Seq<char>,
)
    requires
        archive.dom().contains(q),
    ensures
        extract_effect(fs, dest, archive).dom().contains(dest_path(dest, q)),
        extract_effect(fs, dest, archive)[dest_path(dest, q)] == archive[q],
{
    reveal_strlit("/");
    assert((dest + "/"@ + q).subrange(0, (dest + "/"@).len() as int) =~= dest + "/"@);
    assert(path_under(dest, dest_path(dest, q)));
    assert(dest_path(dest, q).skip(dest.len() + 1 as int) =~= q);
}

/// The chaining tool's registry after linking `dir` under `name`.
pub open spec fn link_effect(
    reg: Map<Seq<char>, Seq<char>>,
    name: Seq<char>,
    dir: Seq<char>,
) -> Map<Seq<char>, Seq<char>> {
    reg.insert(name, dir)
}

/// Chained linking replaces, never merges: afterwards exactly the newly
/// linked directory is reachable under the stable name — whether or not a
/// toolchain was registered there before — and no other registration is
/// created, removed or changed.
pub proof fn lemma_link_replaces(reg: Map<Seq<char>, Seq<char>>, name: Seq<char>, dir: Seq<char>)
    ensures
        link_effect(reg, name, dir).dom().contains(name),
        link_effect(reg, name, dir)[name] == dir,
        forall|n: Seq<char>|
            n != name ==> (#[trigger] link_effect(reg, name, dir).dom().contains(n)
                <==> reg.dom().contains(n)),
        forall|n: Seq<char>|
            n != name && reg.dom().contains(n) ==> #[trigger] link_effect(reg, name, dir)[n]
                == reg[n],
{
}

} // verus!
