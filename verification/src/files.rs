//! Directory listings, handed to the library through a reader capability.
//!
//! A [`DirectoryReader`] answers what a directory holds and whether a path
//! names a directory or a plain file; its model is a listing map and two
//! path sets.  The library's traversal and filtering logic is verified
//! against that model for every reader.  [`SnapshotReader`] is an
//! in-memory reader over fixed data; a deployment wraps the platform's
//! directory calls instead.

use crate::values::{lemma_sval_pair_views, lemma_sval_views, sval_pair_views, sval_view, sval_views, SVal, StructuredValue};
use std::path::PathBuf;
use vstd::prelude::*;
use vstd::string::StringExecFns;

verus! {

/// The views of a sequence of strings, in order.
pub open spec fn string_views(s: Seq<String>) -> Seq<Seq<char>> {
    Seq::new(s.len(), |i: int| s[i]@)
}

/// What a listing holds for one directory: its entries, or nothing for a
/// directory it cannot read.
pub open spec fn entries_of(listing: Map<Seq<char>, Seq<Seq<char>>>, dir: Seq<char>) -> Seq<
    Seq<char>,
> {
    if listing.dom().contains(dir) {
        listing[dir]
    } else {
        Seq::empty()
    }
}

/// The entries that lie in `keep`, in their original order.
pub open spec fn kept_in(entries: Seq<Seq<char>>, keep: Set<Seq<char>>) -> Seq<Seq<char>> {
    entries.filter(|e: Seq<char>| keep.contains(e))
}

/// Filtering one more entry keeps it exactly when the predicate holds.
proof fn lemma_filter_push(s: Seq<Seq<char>>, x: Seq<char>, pred: spec_fn(Seq<char>) -> bool)
    ensures
        s.push(x).filter(pred) == if pred(x) {
            s.filter(pred).push(x)
        } else {
            s.filter(pred)
        },
{
    reveal(Seq::filter);
    assert(s.push(x).drop_last() =~= s);
}

/// A reader of directory listings: what each directory holds, and which
/// paths name directories or plain files.
pub trait DirectoryReader {
    /// The entries that each readable directory holds, in listing order.
    spec fn listing(&self) -> Map<Seq<char>, Seq<Seq<char>>>;

    /// The paths that name directories.
    spec fn dir_set(&self) -> Set<Seq<char>>;

    /// The paths that name plain files.
    spec fn file_set(&self) -> Set<Seq<char>>;

    /// The entries of one directory, in order; empty for a directory the
    /// reader cannot read.
    fn read_entries(&self, directory: &String) -> (r: Vec<String>)
        ensures
            string_views(r@) == entries_of(self.listing(), directory@),
    ;

    /// Whether the path names a directory.
    fn is_dir(&self, path: &String) -> (r: bool)
        ensures
            r == self.dir_set().contains(path@),
    ;

    /// Whether the path names a plain file.
    fn is_file(&self, path: &String) -> (r: bool)
        ensures
            r == self.file_set().contains(path@),
    ;
}

/// The entries recorded for `dir`, by the first matching association.
pub open spec fn snapshot_lookup(assoc: Seq<(String, Vec<String>)>, dir: Seq<char>) -> Option<
    Seq<Seq<char>>,
>
    decreases assoc.len(),
{
    if assoc.len() == 0 {
        None
    } else if assoc[0].0@ == dir {
        Some(string_views(assoc[0].1@))
    } else {
        snapshot_lookup(assoc.subrange(1, assoc.len() as int), dir)
    }
}

/// Where the first `i` associations miss `dir`, the lookup is decided by
/// the rest.
proof fn lemma_snapshot_lookup_skip(assoc: Seq<(String, Vec<String>)>, dir: Seq<char>, i: int)
    requires
        0 <= i <= assoc.len(),
        forall|j: int| 0 <= j < i ==> #[trigger] assoc[j].0@ != dir,
    ensures
        snapshot_lookup(assoc, dir) == snapshot_lookup(assoc.subrange(i, assoc.len() as int), dir),
    decreases i,
{
    if i > 0 {
        let tail = assoc.subrange(1, assoc.len() as int);
        assert(assoc[0].0@ != dir);
        assert forall|j: int| 0 <= j < i - 1 implies #[trigger] tail[j].0@ != dir by {
            assert(tail[j] == assoc[j + 1]);
        }
        lemma_snapshot_lookup_skip(tail, dir, i - 1);
        assert(tail.subrange(i - 1, tail.len() as int) =~= assoc.subrange(i, assoc.len() as int));
    } else {
        assert(assoc.subrange(0, assoc.len() as int) =~= assoc);
    }
}

/// One fresh copy of a sequence of strings.
fn copy_strings(v: &Vec<String>) -> (r: Vec<String>)
    ensures
        string_views(r@) == string_views(v@),
{
    let mut out: Vec<String> = Vec::new();
    let n: usize = v.len();
    for i in 0..n
        invariant
            n == v@.len(),
            out@.len() == i,
            forall|j: int| 0 <= j < i ==> #[trigger] out@[j]@ == v@[j]@,
    {
        out.push(v[i].clone());
    }
    proof {
        assert(string_views(out@) =~= string_views(v@));
    }
    out
}

/// Whether some string of `v` has the characters of `p`.
fn contains_string(v: &Vec<String>, p: &String) -> (r: bool)
    ensures
        r == exists|i: int| 0 <= i < v@.len() && #[trigger] v@[i]@ == p@,
{
    let n: usize = v.len();
    for i in 0..n
        invariant
            n == v@.len(),
            forall|j: int| 0 <= j < i ==> #[trigger] v@[j]@ != p@,
    {
        if v[i] == *p {
            return true;
        }
    }
    false
}

/// An in-memory directory reader over fixed data: the paths under `dirs`
/// name directories, those under `files` name plain files, and `assoc`
/// records each readable directory's entries, first association winning.
pub struct SnapshotReader {
    pub dirs: Vec<String>,
    pub files: Vec<String>,
    pub assoc: Vec<(String, Vec<String>)>,
}

impl DirectoryReader for SnapshotReader {
    open spec fn listing(&self) -> Map<Seq<char>, Seq<Seq<char>>> {
        Map::new(
            |d: Seq<char>| snapshot_lookup(self.assoc@, d) is Some,
            |d: Seq<char>|
                match snapshot_lookup(self.assoc@, d) {
                    Some(v) => v,
                    None => Seq::empty(),
                },
        )
    }

    open spec fn dir_set(&self) -> Set<Seq<char>> {
        Set::new(|p: Seq<char>| exists|i: int| 0 <= i < self.dirs@.len() && #[trigger] self.dirs@[i]@ == p)
    }

    open spec fn file_set(&self) -> Set<Seq<char>> {
        Set::new(
            |p: Seq<char>| exists|i: int| 0 <= i < self.files@.len() && #[trigger] self.files@[i]@ == p,
        )
    }

    fn read_entries(&self, directory: &String) -> (r: Vec<String>)
        ensures
            string_views(r@) == entries_of(self.listing(), directory@),
    {
        let n: usize = self.assoc.len();
        for i in 0..n
            invariant
                n == self.assoc@.len(),
                forall|j: int| 0 <= j < i ==> #[trigger] self.assoc@[j].0@ != directory@,
        {
            if self.assoc[i].0 == *directory {
                proof {
                    lemma_snapshot_lookup_skip(self.assoc@, directory@, i as int);
                    assert(self.assoc@.subrange(i as int, self.assoc@.len() as int)[0]
                        == self.assoc@[i as int]);
                }
                return copy_strings(&self.assoc[i].1);
            }
        }
        proof {
            lemma_snapshot_lookup_skip(self.assoc@, directory@, self.assoc@.len() as int);
            assert(self.assoc@.subrange(self.assoc@.len() as int, self.assoc@.len() as int).len()
                == 0);
        }
        Vec::new()
    }

    fn is_dir(&self, path: &String) -> (r: bool)
        ensures
            r == self.dir_set().contains(path@),
    {
        contains_string(&self.dirs, path)
    }

    fn is_file(&self, path: &String) -> (r: bool)
        ensures
            r == self.file_set().contains(path@),
    {
        contains_string(&self.files, path)
    }
}

/// The entries of one directory, through the reader; a directory the
/// reader cannot read lists as empty.
pub fn get_entries_from_directory<R: DirectoryReader>(reader: &R, directory: &String) -> (r: Vec<
    String,
>)
    ensures
        string_views(r@) == entries_of(reader.listing(), directory@),
{
    reader.read_entries(directory)
}

/// Filtering no entries keeps nothing.
proof fn lemma_filter_empty(pred: spec_fn(Seq<char>) -> bool)
    ensures
        Seq::<Seq<char>>::empty().filter(pred) == Seq::<Seq<char>>::empty(),
{
    reveal(Seq::filter);
}

/// The entries of `v` whose paths name plain files, in order.
fn keep_files<R: DirectoryReader>(reader: &R, entries: &Vec<String>) -> (r: Vec<String>)
    ensures
        string_views(r@) == kept_in(string_views(entries@), reader.file_set()),
{
    let ghost keep = reader.file_set();
    let ghost ev = string_views(entries@);
    let mut out: Vec<String> = Vec::new();
    proof {
        lemma_filter_empty(|e: Seq<char>| keep.contains(e));
        assert(ev.subrange(0, 0) =~= Seq::<Seq<char>>::empty());
        assert(string_views(out@) =~= Seq::<Seq<char>>::empty());
    }
    let n: usize = entries.len();
    for i in 0..n
        invariant
            n == entries@.len(),
            ev == string_views(entries@),
            keep == reader.file_set(),
            string_views(out@) == kept_in(ev.subrange(0, i as int), keep),
    {
        let ghost before = string_views(out@);
        if reader.is_file(&entries[i]) {
            out.push(entries[i].clone());
        }
        proof {
            lemma_filter_push(ev.subrange(0, i as int), ev[i as int], |e: Seq<char>| keep.contains(e));
            assert(ev.subrange(0, i + 1) =~= ev.subrange(0, i as int).push(ev[i as int]));
            if keep.contains(ev[i as int]) {
                assert(string_views(out@) =~= before.push(ev[i as int]));
            }
            assert(string_views(out@) =~= kept_in(ev.subrange(0, i + 1), keep));
        }
    }
    proof {
        assert(ev.subrange(0, n as int) =~= ev);
    }
    out
}

/// The entries of `v` whose paths name directories, in order.
fn keep_dirs<R: DirectoryReader>(reader: &R, entries: &Vec<String>) -> (r: Vec<String>)
    ensures
        string_views(r@) == kept_in(string_views(entries@), reader.dir_set()),
{
    let ghost keep = reader.dir_set();
    let ghost ev = string_views(entries@);
    let mut out: Vec<String> = Vec::new();
    proof {
        lemma_filter_empty(|e: Seq<char>| keep.contains(e));
        assert(ev.subrange(0, 0) =~= Seq::<Seq<char>>::empty());
        assert(string_views(out@) =~= Seq::<Seq<char>>::empty());
    }
    let n: usize = entries.len();
    for i in 0..n
        invariant
            n == entries@.len(),
            ev == string_views(entries@),
            keep == reader.dir_set(),
            string_views(out@) == kept_in(ev.subrange(0, i as int), keep),
    {
        let ghost before = string_views(out@);
        if reader.is_dir(&entries[i]) {
            out.push(entries[i].clone());
        }
        proof {
            lemma_filter_push(ev.subrange(0, i as int), ev[i as int], |e: Seq<char>| keep.contains(e));
            assert(ev.subrange(0, i + 1) =~= ev.subrange(0, i as int).push(ev[i as int]));
            if keep.contains(ev[i as int]) {
                assert(string_views(out@) =~= before.push(ev[i as int]));
            }
            assert(string_views(out@) =~= kept_in(ev.subrange(0, i + 1), keep));
        }
    }
    proof {
        assert(ev.subrange(0, n as int) =~= ev);
    }
    out
}

/// The entries of one directory that name plain files, in order.
pub fn get_files_from_directory<R: DirectoryReader>(reader: &R, directory: &String) -> (r: Vec<
    String,
>)
    ensures
        string_views(r@) == kept_in(entries_of(reader.listing(), directory@), reader.file_set()),
{
    let entries = get_entries_from_directory(reader, directory);
    keep_files(reader, &entries)
}

/// The entries of one directory that name directories, in order.
pub fn get_directories_from_directory<R: DirectoryReader>(reader: &R, directory: &String) -> (r:
    Vec<String>)
    ensures
        string_views(r@) == kept_in(entries_of(reader.listing(), directory@), reader.dir_set()),
{
    let entries = get_entries_from_directory(reader, directory);
    keep_dirs(reader, &entries)
}

/// The traversal's spec mirror: take the most recently queued directory,
/// append its entries to the gathered paths, queue those of its entries
/// that name directories, and go on; each round spends one unit of fuel,
/// and exhausted fuel stops the walk with what was gathered.
pub open spec fn traversal(
    listing: Map<Seq<char>, Seq<Seq<char>>>,
    dirs: Set<Seq<char>>,
    queue: Seq<Seq<char>>,
    acc: Seq<Seq<char>>,
    fuel: nat,
) -> Seq<Seq<char>>
    decreases fuel,
{
    if queue.len() == 0 || fuel == 0 {
        acc
    } else {
        let entries = entries_of(listing, queue.last());
        traversal(
            listing,
            dirs,
            queue.drop_last() + kept_in(entries, dirs),
            acc + entries,
            (fuel - 1) as nat,
        )
    }
}

/// Every entry under the directory, gathered depth-first: each visited
/// directory contributes its entries in listing order, and its
/// subdirectories are visited in turn, most recently queued first.  The
/// walk spends at most `usize::MAX` visiting rounds, the spec's fuel.
pub fn get_entries_from_directory_recursive<R: DirectoryReader>(
    reader: &R,
    directory: &String,
) -> (r: Vec<String>)
    ensures
        string_views(r@) == traversal(
            reader.listing(),
            reader.dir_set(),
            seq![directory@],
            Seq::empty(),
            usize::MAX as nat,
        ),
{
    let ghost ldg = reader.listing();
    let ghost dsg = reader.dir_set();
    let mut queue: Vec<String> = Vec::new();
    let mut paths: Vec<String> = Vec::new();
    queue.push(directory.clone());
    let mut steps: usize = 0;
    proof {
        assert(string_views(queue@) =~= seq![directory@]);
        assert(string_views(paths@) =~= Seq::<Seq<char>>::empty());
    }
    while queue.len() > 0 && steps < usize::MAX
        invariant
            ldg == reader.listing(),
            dsg == reader.dir_set(),
            steps <= usize::MAX,
            forall|f: nat|
                traversal(ldg, dsg, seq![directory@], Seq::empty(), (f + steps) as nat)
                    == #[trigger] traversal(ldg, dsg, string_views(queue@), string_views(paths@), f),
        decreases usize::MAX - steps,
    {
        let ghost qv = string_views(queue@);
        let ghost pv = string_views(paths@);
        let ghost steps0 = steps;
        let current = queue.pop().unwrap();
        proof {
            assert(current@ == qv.last());
            assert(string_views(queue@) =~= qv.drop_last());
        }
        let entries = reader.read_entries(&current);
        let ghost ev = string_views(entries@);
        proof {
            lemma_filter_empty(|e: Seq<char>| dsg.contains(e));
            assert(ev.subrange(0, 0) =~= Seq::<Seq<char>>::empty());
            assert(string_views(queue@) =~= qv.drop_last() + kept_in(ev.subrange(0, 0), dsg));
            assert(string_views(paths@) =~= pv + ev.subrange(0, 0));
        }
        let m: usize = entries.len();
        for k in 0..m
            invariant
                m == entries@.len(),
                ev == string_views(entries@),
                dsg == reader.dir_set(),
                string_views(queue@) == qv.drop_last() + kept_in(ev.subrange(0, k as int), dsg),
                string_views(paths@) == pv + ev.subrange(0, k as int),
        {
            let ghost qb = string_views(queue@);
            let ghost pb = string_views(paths@);
            if reader.is_dir(&entries[k]) {
                queue.push(entries[k].clone());
            }
            paths.push(entries[k].clone());
            proof {
                lemma_filter_push(ev.subrange(0, k as int), ev[k as int], |e: Seq<char>| dsg.contains(e));
                assert(ev.subrange(0, k + 1) =~= ev.subrange(0, k as int).push(ev[k as int]));
                if dsg.contains(ev[k as int]) {
                    assert(string_views(queue@) =~= qb.push(ev[k as int]));
                }
                assert(string_views(queue@) =~= qv.drop_last() + kept_in(ev.subrange(0, k + 1), dsg));
                assert(string_views(paths@) =~= pb.push(ev[k as int]));
                assert(string_views(paths@) =~= pv + ev.subrange(0, k + 1));
            }
        }
        steps = steps + 1;
        proof {
            assert(ev.subrange(0, ev.len() as int) =~= ev);
            assert(ev == entries_of(ldg, qv.last()));
            assert forall|f: nat|
                traversal(ldg, dsg, seq![directory@], Seq::empty(), (f + steps) as nat)
                    == #[trigger] traversal(ldg, dsg, string_views(queue@), string_views(paths@), f) by {
                let f1: nat = (f + 1) as nat;
                assert(traversal(ldg, dsg, seq![directory@], Seq::empty(), (f1 + steps0) as nat)
                    == traversal(ldg, dsg, qv, pv, f1));
                assert(traversal(ldg, dsg, qv, pv, f1) == traversal(
                    ldg,
                    dsg,
                    qv.drop_last() + kept_in(entries_of(ldg, qv.last()), dsg),
                    pv + entries_of(ldg, qv.last()),
                    f,
                ));
            }
        }
    }
    proof {
        if queue@.len() == 0 {
            let f: nat = (usize::MAX - steps) as nat;
            assert(traversal(ldg, dsg, seq![directory@], Seq::empty(), (f + steps) as nat)
                == traversal(ldg, dsg, string_views(queue@), string_views(paths@), f));
            assert(string_views(queue@).len() == 0);
        } else {
            let f: nat = 0;
            assert(traversal(ldg, dsg, seq![directory@], Seq::empty(), (f + steps) as nat)
                == traversal(ldg, dsg, string_views(queue@), string_views(paths@), f));
        }
    }
    paths
}

/// Every entry under the directory, depth-first, that names a plain file.
pub fn get_files_from_directory_recursive<R: DirectoryReader>(
    reader: &R,
    directory: &String,
) -> (r: Vec<String>)
    ensures
        string_views(r@) == kept_in(
            traversal(
                reader.listing(),
                reader.dir_set(),
                seq![directory@],
                Seq::empty(),
                usize::MAX as nat,
            ),
            reader.file_set(),
        ),
{
    let entries = get_entries_from_directory_recursive(reader, directory);
    keep_files(reader, &entries)
}

/// Every entry under the directory, depth-first, that names a directory.
pub fn get_directories_from_directory_recursive<R: DirectoryReader>(
    reader: &R,
    directory: &String,
) -> (r: Vec<String>)
    ensures
        string_views(r@) == kept_in(
            traversal(
                reader.listing(),
                reader.dir_set(),
                seq![directory@],
                Seq::empty(),
                usize::MAX as nat,
            ),
            reader.dir_set(),
        ),
{
    let entries = get_entries_from_directory_recursive(reader, directory);
    keep_dirs(reader, &entries)
}

/// The candidate drive roots, one per letter.
pub open spec fn drive_names() -> Seq<Seq<char>> {
    seq!["A:"@, "B:"@, "C:"@, "D:"@, "E:"@, "F:"@, "G:"@, "H:"@, "I:"@, "J:"@, "K:"@, "L:"@, "M:"@, "N:"@, "O:"@, "P:"@, "Q:"@, "R:"@, "S:"@, "T:"@, "U:"@, "V:"@, "W:"@, "X:"@, "Y:"@, "Z:"@]
}

/// The candidate drive roots whose paths name directories, in order.
pub fn get_drives<R: DirectoryReader>(reader: &R) -> (r: Vec<String>)
    ensures
        string_views(r@) == kept_in(drive_names(), reader.dir_set()),
{
    let candidates: Vec<String> = vec!["A:".to_owned(), "B:".to_owned(), "C:".to_owned(), "D:".to_owned(), "E:".to_owned(), "F:".to_owned(), "G:".to_owned(), "H:".to_owned(), "I:".to_owned(), "J:".to_owned(), "K:".to_owned(), "L:".to_owned(), "M:".to_owned(), "N:".to_owned(), "O:".to_owned(), "P:".to_owned(), "Q:".to_owned(), "R:".to_owned(), "S:".to_owned(), "T:".to_owned(), "U:".to_owned(), "V:".to_owned(), "W:".to_owned(), "X:".to_owned(), "Y:".to_owned(), "Z:".to_owned()];
    proof {
        assert(string_views(candidates@) =~= drive_names());
    }
    keep_dirs(reader, &candidates)
}

/// The text values of a sequence of paths, in order.
pub open spec fn text_values(s: Seq<Seq<char>>) -> Seq<SVal> {
    Seq::new(s.len(), |i: int| SVal::Text(s[i]))
}

/// The paths of `v` as structured text values, in order.
fn strings_to_text_values(v: &Vec<String>) -> (r: Vec<StructuredValue>)
    ensures
        sval_views(r@) == text_values(string_views(v@)),
{
    let mut out: Vec<StructuredValue> = Vec::new();
    let n: usize = v.len();
    for i in 0..n
        invariant
            n == v@.len(),
            out@.len() == i,
            forall|j: int| 0 <= j < i
                ==> sval_view(#[trigger] out@[j]) == SVal::Text(v@[j]@),
    {
        out.push(StructuredValue::Text(v[i].clone()));
    }
    proof {
        lemma_sval_views(out@);
        assert(sval_views(out@) =~= text_values(string_views(v@)));
    }
    out
}

/// The entries of the user's desktop, downloads and documents
/// directories, one listing each.
pub struct FilesInfo {
    pub desktop: Vec<String>,
    pub downloads: Vec<String>,
    pub documents: Vec<String>,
}

impl FilesInfo {
    /// Coerce the three listings into a structured object value.
    pub fn to_structured(&self) -> (r: StructuredValue)
        ensures
            r@ == SVal::Object(
                seq![
                    ("desktop"@, SVal::Array(text_values(string_views(self.desktop@)))),
                    ("downloads"@, SVal::Array(text_values(string_views(self.downloads@)))),
                    ("documents"@, SVal::Array(text_values(string_views(self.documents@)))),
                ],
            ),
    {
        let mut pairs: Vec<(String, StructuredValue)> = Vec::new();
        pairs.push(("desktop".to_owned(), StructuredValue::Array(strings_to_text_values(&self.desktop))));
        pairs.push(("downloads".to_owned(), StructuredValue::Array(strings_to_text_values(&self.downloads))));
        pairs.push(("documents".to_owned(), StructuredValue::Array(strings_to_text_values(&self.documents))));
        proof {
            lemma_sval_pair_views(pairs@);
            assert(sval_pair_views(pairs@) =~~= seq![
                ("desktop"@, SVal::Array(text_values(string_views(self.desktop@)))),
                ("downloads"@, SVal::Array(text_values(string_views(self.downloads@)))),
                ("documents"@, SVal::Array(text_values(string_views(self.documents@)))),
            ]);
        }
        StructuredValue::Object(pairs)
    }
}

#[verifier::external_type_specification]
#[verifier::external_body]
pub struct ExPathBuf(PathBuf);

/// Relies on `Path::to_str`: the path's text where the path is valid
/// Unicode, and the empty string otherwise.  A path value is opaque, so
/// nothing more can be stated of the result.
#[verifier::external_body]
fn path_to_string(p: &PathBuf) -> String {
    p.to_str().unwrap_or_default().to_string()
}

/// Relies on `PathBuf::from`: a path value carrying the given text.
#[verifier::external_body]
fn path_from_string(s: String) -> PathBuf {
    PathBuf::from(s)
}

/// Relies on `dirs::desktop_dir`: the platform's desktop directory, empty
/// where the platform reports none.  The answer depends on the machine,
/// so nothing is stated of it.
#[verifier::external_body]
pub fn get_desktop_directory() -> String {
    dirs::desktop_dir().unwrap_or_default().to_str().unwrap_or_default().to_string()
}

/// Relies on `dirs::download_dir`: the platform's downloads directory,
/// empty where the platform reports none.
#[verifier::external_body]
pub fn get_downloads_directory() -> String {
    dirs::download_dir().unwrap_or_default().to_str().unwrap_or_default().to_string()
}

/// Relies on `dirs::document_dir`: the platform's documents directory,
/// empty where the platform reports none.
#[verifier::external_body]
pub fn get_documents_directory() -> String {
    dirs::document_dir().unwrap_or_default().to_str().unwrap_or_default().to_string()
}

/// Relies on `dirs::data_local_dir`: the platform's local application
/// data directory, empty where the platform reports none.
#[verifier::external_body]
fn get_data_local_directory() -> String {
    dirs::data_local_dir().unwrap_or_default().to_str().unwrap_or_default().to_string()
}

/// The browser profile root: the platform's local application data
/// directory with the browser's fixed subpath appended.
pub fn get_chrome_path() -> (r: String)
    ensures
        exists|base: Seq<char>| r@ == #[trigger] (base + "\\Google\\Chrome\\User Data"@),
{
    let mut path = get_data_local_directory();
    path.append("\\Google\\Chrome\\User Data");
    path
}

/// The entries of the user's desktop, downloads and documents
/// directories, named by the caller: each field lists exactly what the
/// reader holds for the respective directory, and a directory the reader
/// cannot read yields an empty listing for its field alone.
pub fn get_files<R: DirectoryReader>(
    reader: &R,
    desktop_dir: &String,
    downloads_dir: &String,
    documents_dir: &String,
) -> (r: FilesInfo)
    ensures
        string_views(r.desktop@) == entries_of(reader.listing(), desktop_dir@),
        string_views(r.downloads@) == entries_of(reader.listing(), downloads_dir@),
        string_views(r.documents@) == entries_of(reader.listing(), documents_dir@),
{
    FilesInfo {
        desktop: reader.read_entries(desktop_dir),
        downloads: reader.read_entries(downloads_dir),
        documents: reader.read_entries(documents_dir),
    }
}

/// The text of each path, in order.  Path values are opaque here, so the
/// contract states the shape of the conversion alone.
pub fn paths_to_strings(paths: Vec<PathBuf>) -> (r: Vec<String>)
    ensures
        r@.len() == paths@.len(),
{
    let mut out: Vec<String> = Vec::new();
    let n: usize = paths.len();
    for i in 0..n
        invariant
            n == paths@.len(),
            out@.len() == i,
    {
        out.push(path_to_string(&paths[i]));
    }
    out
}

/// A path value over each string, in order.  Path values are opaque
/// here, so the contract states the shape of the conversion alone.
pub fn strings_to_paths(strings: Vec<String>) -> (r: Vec<PathBuf>)
    ensures
        r@.len() == strings@.len(),
{
    let mut out: Vec<PathBuf> = Vec::new();
    let n: usize = strings.len();
    for i in 0..n
        invariant
            n == strings@.len(),
            out@.len() == i,
    {
        out.push(path_from_string(strings[i].clone()));
    }
    out
}

} // verus!
