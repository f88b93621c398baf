//! Directory listings: what is shown for each remote entry, and in which order.

use crate::sftp::{is_directory_mode, RemoteStat};
use crate::text::{digit_char, digit_str};
use vstd::prelude::*;
use vstd::string::StringExecFns;
use vstd::utf8::encode_utf8;

verus! {

/// What the SFTP subsystem reports about one entry of a directory.
#[derive(Debug, Clone, PartialEq, Eq)]
pub struct RemoteEntry {
    /// Last component of the entry's path.
    pub name: String,
    /// The attributes that the server reported.
    pub stat: RemoteStat,
}

/// One line of a directory listing.
#[derive(Debug, Clone, PartialEq, Eq)]
pub struct SftpFile {
    pub name: String,
    pub is_dir: bool,
    pub size: u64,
    pub permissions: String,
    pub modified: u64,
}

/// The mathematical content of an `SftpFile`.
pub struct FileView {
    pub name: Seq<char>,
    pub is_dir: bool,
    pub size: u64,
    pub permissions: Seq<char>,
    pub modified: u64,
}

impl View for SftpFile {
    type V = FileView;

    open spec fn view(&self) -> FileView {
        FileView {
            name: self.name@,
            is_dir: self.is_dir,
            size: self.size,
            permissions: self.permissions@,
            modified: self.modified,
        }
    }
}

/// The views of a sequence of listing lines.
pub open spec fn views(files: Seq<SftpFile>) -> Seq<FileView> {
    files.map_values(|f: SftpFile| f@)
}

/// Text shown where the server told no mode bits.
pub open spec fn unknown_permissions() -> Seq<char> {
    "---------"@
}

/// The bits of a mode that are permissions: read, write and execute for the
/// owner, the group and everyone else.
pub const PERMISSION_BITS: u32 = 0o777;

/// Text shown for mode bits: the three octal digits of the permission bits,
/// one each for the owner, the group and everyone else. The other bits of the
/// mode, such as the file type, are not shown.
pub open spec fn permission_text(permissions: Option<u32>) -> Seq<char> {
    match permissions {
        Some(mode) => {
            let bits = (mode & PERMISSION_BITS) as nat;
            seq![digit_char(bits / 64), digit_char(bits / 8 % 8), digit_char(bits % 8)]
        },
        None => unknown_permissions(),
    }
}

/// The listing line for a remote entry: the type is read from the mode bits,
/// size and modification time default to zero, the permission bits are
/// rendered as three octal digits.
pub open spec fn described(entry: RemoteEntry) -> FileView {
    FileView {
        name: entry.name@,
        is_dir: is_directory_mode(entry.stat.permissions),
        size: match entry.stat.size {
            Some(s) => s,
            None => 0,
        },
        permissions: permission_text(entry.stat.permissions),
        modified: match entry.stat.modified {
            Some(m) => m,
            None => 0,
        },
    }
}

/// The listing lines for a sequence of remote entries, in their order.
pub open spec fn all_described(entries: Seq<RemoteEntry>) -> Seq<FileView> {
    entries.map_values(|e: RemoteEntry| described(e))
}

/// Lexicographic order of byte strings: `a` is a prefix of `b`, or smaller at
/// the first position where they differ.
pub open spec fn bytes_le(a: Seq<u8>, b: Seq<u8>) -> bool
    decreases a.len(),
{
    if a.len() == 0 {
        true
    } else if b.len() == 0 {
        false
    } else if a[0] != b[0] {
        a[0] < b[0]
    } else {
        bytes_le(a.drop_first(), b.drop_first())
    }
}

/// Whether `a` may stand before `b` in a listing: a directory before a file,
/// and among entries of one type the names in the lexicographic order of
/// their UTF-8 bytes.
pub open spec fn listed_le(a: FileView, b: FileView) -> bool {
    if a.is_dir != b.is_dir {
        a.is_dir
    } else {
        bytes_le(encode_utf8(a.name), encode_utf8(b.name))
    }
}

/// Whether every entry may stand before all that follow it.
pub open spec fn in_listing_order(files: Seq<FileView>) -> bool {
    forall|i: int, j: int| 0 <= i < j < files.len() ==> listed_le(files[i], files[j])
}

/// Whether two entries have the same type and name, so that the order of a
/// listing does not tell them apart.
pub open spec fn same_rank(a: FileView, b: FileView) -> bool {
    a.is_dir == b.is_dir && a.name == b.name
}

/// The entries of `files` that have the rank of `x`, in their order.
pub open spec fn ranked(files: Seq<FileView>, x: FileView) -> Seq<FileView> {
    files.filter(|f: FileView| same_rank(f, x))
}

/// Whether `out` is the listing of `input`: the same entries, in listing
/// order, those of equal rank in the order they had in `input`. Exactly one
/// sequence is the listing of a given input.
pub open spec fn is_listing_of(out: Seq<FileView>, input: Seq<FileView>) -> bool {
    &&& out.len() == input.len()
    &&& in_listing_order(out)
    &&& forall|x: FileView| #[trigger] ranked(out, x) == ranked(input, x)
}

/// Every byte string is below itself.
pub proof fn lemma_bytes_le_reflexive(a: Seq<u8>)
    ensures
        bytes_le(a, a),
    decreases a.len(),
{
    if a.len() > 0 {
        lemma_bytes_le_reflexive(a.drop_first());
    }
}

/// Of two byte strings, one is below the other.
pub proof fn lemma_bytes_le_total(a: Seq<u8>, b: Seq<u8>)
    ensures
        bytes_le(a, b) || bytes_le(b, a),
    decreases a.len(),
{
    if a.len() > 0 && b.len() > 0 && a[0] == b[0] {
        lemma_bytes_le_total(a.drop_first(), b.drop_first());
    }
}

/// The order of byte strings is transitive.
pub proof fn lemma_bytes_le_transitive(a: Seq<u8>, b: Seq<u8>, c: Seq<u8>)
    requires
        bytes_le(a, b),
        bytes_le(b, c),
    ensures
        bytes_le(a, c),
    decreases a.len(),
{
    if a.len() > 0 && b.len() > 0 && c.len() > 0 && a[0] == b[0] && b[0] == c[0] {
        lemma_bytes_le_transitive(a.drop_first(), b.drop_first(), c.drop_first());
    }
}

/// The listing order compares any two entries, is transitive, and lets
/// entries of the same rank stand either way round.
pub proof fn lemma_listed_le_order(a: FileView, b: FileView, c: FileView)
    ensures
        listed_le(a, b) || listed_le(b, a),
        listed_le(a, b) && listed_le(b, c) ==> listed_le(a, c),
        same_rank(a, b) ==> listed_le(a, b),
{
    let (ka, kb, kc) = (encode_utf8(a.name), encode_utf8(b.name), encode_utf8(c.name));
    lemma_bytes_le_total(ka, kb);
    lemma_bytes_le_reflexive(ka);
    if bytes_le(ka, kb) && bytes_le(kb, kc) {
        lemma_bytes_le_transitive(ka, kb, kc);
    }
}

/// Byte strings that are each below the other are equal.
pub proof fn lemma_bytes_le_antisymmetric(a: Seq<u8>, b: Seq<u8>)
    requires
        bytes_le(a, b),
        bytes_le(b, a),
    ensures
        a == b,
    decreases a.len(),
{
    if a.len() > 0 && b.len() > 0 {
        lemma_bytes_le_antisymmetric(a.drop_first(), b.drop_first());
        assert(a =~= seq![a[0]] + a.drop_first());
        assert(b =~= seq![b[0]] + b.drop_first());
    } else {
        assert(a =~= b);
    }
}

/// Entries that may stand before each other have the same rank.
pub proof fn lemma_listed_le_antisymmetric(a: FileView, b: FileView)
    requires
        listed_le(a, b),
        listed_le(b, a),
    ensures
        same_rank(a, b),
{
    lemma_bytes_le_antisymmetric(encode_utf8(a.name), encode_utf8(b.name));
    vstd::utf8::encode_utf8_decode_utf8(a.name);
    vstd::utf8::encode_utf8_decode_utf8(b.name);
}

/// Compares two byte strings lexicographically.
fn bytes_le_exec(a: &[u8], b: &[u8]) -> (r: bool)
    ensures
        r == bytes_le(a@, b@),
{
    let mut i: usize = 0;
    assert(a@.skip(0) =~= a@ && b@.skip(0) =~= b@);
    while i < a.len() && i < b.len()
        invariant
            i <= a.len(),
            i <= b.len(),
            bytes_le(a@, b@) == bytes_le(a@.skip(i as int), b@.skip(i as int)),
        decreases a.len() - i,
    {
        if a[i] != b[i] {
            return a[i] < b[i];
        }
        assert(a@.skip(i as int).drop_first() =~= a@.skip(i + 1));
        assert(b@.skip(i as int).drop_first() =~= b@.skip(i + 1));
        i = i + 1;
    }
    i == a.len()
}

/// Whether `a` may stand before `b` in a listing.
pub fn may_precede(a: &SftpFile, b: &SftpFile) -> (r: bool)
    ensures
        r == listed_le(a@, b@),
{
    if a.is_dir != b.is_dir {
        a.is_dir
    } else {
        bytes_le_exec(a.name.as_str().as_bytes(), b.name.as_str().as_bytes())
    }
}

/// Renders mode bits for a listing: exactly three octal digits for the
/// permission bits of a mode, nine dashes where the server told no mode.
pub fn render_permissions(permissions: Option<u32>) -> (s: String)
    ensures
        s@ == permission_text(permissions),
        permissions is Some ==> s@.len() == 3,
{
    match permissions {
        Some(mode) => {
            let bits: u32 = mode & PERMISSION_BITS;
            assert(bits < 512) by (bit_vector)
                requires
                    bits == mode & 0o777u32,
            ;
            let shown = String::from_str(digit_str(bits / 64)).concat(
                digit_str(bits / 8 % 8),
            ).concat(digit_str(bits % 8));
            assert(shown@ =~= permission_text(permissions));
            shown
        },
        None => String::from_str("---------"),
    }
}

/// Makes the listing line for one remote entry.
pub fn describe(entry: &RemoteEntry) -> (f: SftpFile)
    ensures
        f@ == described(*entry),
{
    SftpFile {
        name: entry.name.clone(),
        is_dir: entry.stat.is_dir(),
        size: match entry.stat.size {
            Some(s) => s,
            None => 0,
        },
        permissions: render_permissions(entry.stat.permissions),
        modified: match entry.stat.modified {
            Some(m) => m,
            None => 0,
        },
    }
}

/// The entries of a rank in a sequence: the first entry if it has the rank,
/// then those of the rest.
proof fn lemma_ranked_first(files: Seq<FileView>, x: FileView)
    requires
        files.len() > 0,
    ensures
        ranked(files, x) == if same_rank(files[0], x) {
            seq![files[0]] + ranked(files.drop_first(), x)
        } else {
            ranked(files.drop_first(), x)
        },
{
    let pred = |f: FileView| same_rank(f, x);
    let none = Seq::<FileView>::empty();
    let head = none.push(files[0]);
    assert(files =~= head + files.drop_first());
    Seq::filter_distributes_over_add(head, files.drop_first(), pred);
    none.lemma_filter_push(files[0], pred);
    assert(none.filter(pred) =~= none) by {
        reveal(Seq::filter);
    }
    if same_rank(files[0], x) {
        assert(head.filter(pred) =~= seq![files[0]]);
    } else {
        assert(none + files.drop_first().filter(pred) =~= files.drop_first().filter(pred));
    }
}

/// No entry of `files` with the rank of `x` means nothing is left after
/// filtering for that rank.
proof fn lemma_ranked_empty(files: Seq<FileView>, x: FileView)
    requires
        forall|i: int| 0 <= i < files.len() ==> !same_rank(#[trigger] files[i], x),
    ensures
        ranked(files, x) == Seq::<FileView>::empty(),
{
    let pred = |f: FileView| same_rank(f, x);
    if files.filter(pred).len() > 0 {
        let f = files.filter(pred)[0];
        files.lemma_filter_pred(pred, 0);
        assert(files.filter(pred).contains(f));
        files.lemma_filter_contains_rev(pred, f);
    }
    assert(ranked(files, x) =~= Seq::<FileView>::empty());
}

/// What putting `f` at position `p` does to the entries of each rank, when all
/// entries before `p` come strictly before `f`.
proof fn lemma_ranked_insert(files: Seq<FileView>, p: int, f: FileView, x: FileView)
    requires
        0 <= p <= files.len(),
        forall|q: int| 0 <= q < p ==> !listed_le(f, #[trigger] files[q]),
    ensures
        ranked(files.insert(p, f), x) == if same_rank(f, x) {
            seq![f] + ranked(files, x)
        } else {
            ranked(files, x)
        },
{
    let pred = |g: FileView| same_rank(g, x);
    let front = files.subrange(0, p);
    let back = files.subrange(p, files.len() as int);
    assert(files =~= front + back);
    assert(files.insert(p, f) =~= front.push(f) + back);
    Seq::filter_distributes_over_add(front, back, pred);
    Seq::filter_distributes_over_add(front.push(f), back, pred);
    front.lemma_filter_push(f, pred);
    if same_rank(f, x) {
        assert forall|i: int| 0 <= i < front.len() implies !same_rank(#[trigger] front[i], x) by {
            lemma_listed_le_order(f, front[i], x);
            assert(front[i] == files[i]);
        }
        lemma_ranked_empty(front, x);
        assert(front.filter(pred).push(f) + back.filter(pred) =~= seq![f] + (front.filter(pred)
            + back.filter(pred)));
    }
}

/// Puts `f` into a listing: before the first entry that it may precede.
fn insert_in_order(out: &mut Vec<SftpFile>, f: SftpFile)
    requires
        in_listing_order(views(old(out)@)),
    ensures
        in_listing_order(views(final(out)@)),
        final(out)@.len() == old(out)@.len() + 1,
        forall|x: FileView| #[trigger]
            ranked(views(final(out)@), x) == if same_rank(f@, x) {
                seq![f@] + ranked(views(old(out)@), x)
            } else {
                ranked(views(old(out)@), x)
            },
{
    let ghost before = views(out@);
    let mut p: usize = 0;
    while p < out.len() && !may_precede(&f, &out[p])
        invariant
            p <= out.len(),
            views(out@) == before,
            forall|q: int| 0 <= q < p ==> !listed_le(f@, #[trigger] before[q]),
        decreases out.len() - p,
    {
        p = p + 1;
    }
    out.insert(p, f);
    proof {
        let after = views(out@);
        assert(after =~= before.insert(p as int, f@));
        assert forall|i: int, j: int| 0 <= i < j < after.len() implies listed_le(
            after[i],
            after[j],
        ) by {
            if i < p && j == p {
                lemma_listed_le_order(after[i], f@, f@);
            } else if i == p {
                lemma_listed_le_order(f@, before[p as int], after[j]);
            }
        }
        assert forall|x: FileView| #[trigger]
            ranked(after, x) == if same_rank(f@, x) {
                seq![f@] + ranked(before, x)
            } else {
                ranked(before, x)
            } by {
            lemma_ranked_insert(before, p as int, f@, x);
        }
    }
}

/// Sorts the lines of a listing: directories first, then files, each group by
/// name; lines of equal type and name keep their order.
pub fn sort_listing(files: Vec<SftpFile>) -> (out: Vec<SftpFile>)
    ensures
        is_listing_of(views(out@), views(files@)),
{
    let ghost input = views(files@);
    let mut rest = files;
    let mut out: Vec<SftpFile> = Vec::new();
    proof {
        assert(views(out@) =~= input.skip(input.len() as int));
    }
    while rest.len() > 0
        invariant
            rest@.len() <= input.len(),
            views(rest@) == input.take(rest@.len() as int),
            out@.len() + rest@.len() == input.len(),
            in_listing_order(views(out@)),
            forall|x: FileView| #[trigger]
                ranked(views(out@), x) == ranked(input.skip(rest@.len() as int), x),
        decreases rest.len(),
    {
        let ghost n = rest@.len() as int;
        let ghost placed = views(out@);
        let ghost pending = rest@;
        let f = rest.pop().unwrap();
        assert(f@ == input[n - 1]) by {
            assert(views(pending)[n - 1] == f@);
        }
        assert(views(rest@) =~= input.take(n - 1));
        insert_in_order(&mut out, f);
        proof {
            assert(input.skip(n - 1).drop_first() =~= input.skip(n));
            assert forall|x: FileView| #[trigger]
                ranked(views(out@), x) == ranked(input.skip(n - 1), x) by {
                assert(ranked(placed, x) == ranked(input.skip(n), x));
                lemma_ranked_first(input.skip(n - 1), x);
            }
        }
    }
    proof {
        assert(input.skip(0) =~= input);
    }
    out
}

/// Builds the listing of a directory from what the server reported.
///
/// Every entry is described by one line, and the lines are sorted.
pub fn build_listing(entries: &Vec<RemoteEntry>) -> (out: Vec<SftpFile>)
    ensures
        is_listing_of(views(out@), all_described(entries@)),
{
    let mut files: Vec<SftpFile> = Vec::new();
    let mut i: usize = 0;
    while i < entries.len()
        invariant
            i <= entries.len(),
            views(files@) == all_described(entries@.take(i as int)),
        decreases entries.len() - i,
    {
        let ghost done = files@;
        let line = describe(&entries[i]);
        files.push(line);
        proof {
            let target = all_described(entries@.take(i + 1));
            assert(views(done).len() == i);
            assert forall|k: int| 0 <= k < target.len() implies views(files@)[k] == target[k] by {
                if k < i {
                    assert(views(done)[k] == all_described(entries@.take(i as int))[k]);
                }
            }
            assert(views(files@) =~= target);
        }
        i = i + 1;
    }
    assert(entries@.take(i as int) =~= entries@);
    sort_listing(files)
}

/// Where the first entry of `a` stands in `b`, when both hold the same
/// entries of its rank: at the front, or behind an entry that may precede it.
proof fn lemma_first_is_listed(a: Seq<FileView>, b: Seq<FileView>)
    requires
        a.len() > 0,
        b.len() > 0,
        in_listing_order(b),
        ranked(a, a[0]) == ranked(b, a[0]),
    ensures
        same_rank(b[0], a[0]) ==> b[0] == a[0],
        listed_le(b[0], a[0]),
{
    let x = a[0];
    let pred = |f: FileView| same_rank(f, x);
    lemma_ranked_first(a, x);
    lemma_ranked_first(b, x);
    assert(ranked(a, x)[0] == x);
    if same_rank(b[0], x) {
        assert(ranked(b, x)[0] == b[0]);
        lemma_listed_le_order(b[0], x, x);
    } else {
        assert(b.filter(pred).contains(x));
        b.lemma_filter_contains_rev(pred, x);
        let j = choose|j: int| 0 <= j < b.len() && b[j] == x;
        assert(listed_le(b[0], b[j]));
    }
}

/// Sequences in listing order that hold, for every rank, the same entries in
/// the same order are equal.
proof fn lemma_same_ranks_same_order(a: Seq<FileView>, b: Seq<FileView>)
    requires
        a.len() == b.len(),
        in_listing_order(a),
        in_listing_order(b),
        forall|x: FileView| #[trigger] ranked(a, x) == ranked(b, x),
    ensures
        a == b,
    decreases a.len(),
{
    if a.len() == 0 {
        assert(a =~= b);
    } else {
        assert(ranked(a, a[0]) == ranked(b, a[0]));
        assert(ranked(a, b[0]) == ranked(b, b[0]));
        lemma_first_is_listed(a, b);
        lemma_first_is_listed(b, a);
        lemma_listed_le_antisymmetric(a[0], b[0]);
        assert(a[0] == b[0]);
        let a1 = a.drop_first();
        let b1 = b.drop_first();
        assert forall|x: FileView| #[trigger] ranked(a1, x) == ranked(b1, x) by {
            lemma_ranked_first(a, x);
            lemma_ranked_first(b, x);
            assert(ranked(a, x) == ranked(b, x));
            if same_rank(a[0], x) {
                let head = seq![a[0]];
                assert((head + ranked(a1, x)).drop_first() =~= ranked(a1, x));
                assert((head + ranked(b1, x)).drop_first() =~= ranked(b1, x));
            }
        }
        assert(in_listing_order(a1)) by {
            assert forall|i: int, j: int| 0 <= i < j < a1.len() implies listed_le(a1[i], a1[j]) by {
                assert(a1[i] == a[i + 1] && a1[j] == a[j + 1]);
            }
        }
        assert(in_listing_order(b1)) by {
            assert forall|i: int, j: int| 0 <= i < j < b1.len() implies listed_le(b1[i], b1[j]) by {
                assert(b1[i] == b[i + 1] && b1[j] == b[j + 1]);
            }
        }
        lemma_same_ranks_same_order(a1, b1);
        assert(a =~= seq![a[0]] + a1);
        assert(b =~= seq![b[0]] + b1);
    }
}

/// Exactly one sequence is the listing of a given input: the contract of
/// `sort_listing` and `build_listing` leaves nothing open.
pub proof fn law_listing_is_unique(a: Seq<FileView>, b: Seq<FileView>, input: Seq<FileView>)
    requires
        is_listing_of(a, input),
        is_listing_of(b, input),
    ensures
        a == b,
{
    assert forall|x: FileView| #[trigger] ranked(a, x) == ranked(b, x) by {
        assert(ranked(a, x) == ranked(input, x));
        assert(ranked(b, x) == ranked(input, x));
    }
    lemma_same_ranks_same_order(a, b);
}

/// In a listing every directory stands before every file, and entries of one
/// type stand in the order of their names.
pub proof fn law_directories_first(files: Seq<FileView>, i: int, j: int)
    requires
        in_listing_order(files),
        0 <= i < j < files.len(),
    ensures
        files[j].is_dir ==> files[i].is_dir,
        files[i].is_dir == files[j].is_dir ==> bytes_le(
            encode_utf8(files[i].name),
            encode_utf8(files[j].name),
        ),
{
    assert(listed_le(files[i], files[j]));
}

} // verus!
