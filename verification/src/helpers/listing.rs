//! The listing of a directory that is attached to a message.
//!
//! Directories come first, then files, each group by name. Reading the
//! directory, and wording the size of a file of a kilobyte or more, is the
//! caller's part.

use vstd::prelude::*;
use vstd::seq_lib::group_to_multiset_ensures;
use vstd::string::{StrSliceExecFns, StringExecFns};
use crate::llm::types::{ContentBlock, ContentBlockView};
use crate::text::{decimal, pad_left, right_aligned, u64_to_string};

verus! {

/// The width of the field that holds an entry's size.
pub const SIZE_WIDTH: usize = 12;

/// The width of the number in the size of a file under a kilobyte.
pub const BYTES_WIDTH: usize = 8;

/// One entry of a directory.
#[derive(Debug)]
pub struct ListedEntry {
    /// The entry's name in the directory.
    pub name: String,
    /// Whether the entry is a directory itself.
    pub is_dir: bool,
    /// The size of a file in words; a directory shows none.
    pub size_text: String,
}

/// The model of a [`ListedEntry`].
pub ghost struct ListedEntryView {
    pub name: Seq<char>,
    pub is_dir: bool,
    pub size_text: Seq<char>,
}

impl DeepView for ListedEntry {
    type V = ListedEntryView;

    open spec fn deep_view(&self) -> ListedEntryView {
        ListedEntryView { name: self.name@, is_dir: self.is_dir, size_text: self.size_text@ }
    }
}

/// The unit in which a file's size is worded.
#[derive(Debug)]
pub enum SizeUnit {
    Bytes,
    Kilobytes,
    Megabytes,
    Gigabytes,
}

/// The unit for a size in bytes: the largest of which the size holds one.
pub open spec fn unit_of(size: u64) -> SizeUnit {
    if size < 1024 {
        SizeUnit::Bytes
    } else if size < 1024 * 1024 {
        SizeUnit::Kilobytes
    } else if size < 1024 * 1024 * 1024 {
        SizeUnit::Megabytes
    } else {
        SizeUnit::Gigabytes
    }
}

/// The unit in which the size `size`, in bytes, is worded.
pub fn size_unit(size: u64) -> (r: SizeUnit)
    ensures
        r == unit_of(size),
{
    if size < 1024 {
        SizeUnit::Bytes
    } else if size < 1024 * 1024 {
        SizeUnit::Kilobytes
    } else if size < 1024 * 1024 * 1024 {
        SizeUnit::Megabytes
    } else {
        SizeUnit::Gigabytes
    }
}

/// A size in bytes in words: the number at the right end of eight
/// characters, then the unit.
pub open spec fn byte_size(size: u64) -> Seq<char> {
    right_aligned(decimal(size as nat), BYTES_WIDTH as nat) + " B"@
}

/// The size of a file under a kilobyte, in words.
pub fn byte_size_text(size: u64) -> (r: String)
    ensures
        r@ == byte_size(size),
{
    let number = u64_to_string(size);
    let mut out = pad_left(number.as_str(), BYTES_WIDTH);
    out.append(" B");
    out
}

/// Whether `a` comes before `b`, given that the two agree before the place
/// `from`: at the first place where they differ `a` has the lower character,
/// or `a` ends there and `b` goes on.
pub open spec fn text_before_from(a: Seq<char>, b: Seq<char>, from: int) -> bool
    decreases a.len() - from,
{
    if from < 0 || from >= b.len() {
        false
    } else if from >= a.len() {
        true
    } else if a[from] != b[from] {
        (a[from] as u32) < (b[from] as u32)
    } else {
        text_before_from(a, b, from + 1)
    }
}

/// Whether the text `a` comes before the text `b`, character by character.
pub open spec fn text_before(a: Seq<char>, b: Seq<char>) -> bool {
    text_before_from(a, b, 0)
}

/// Whether the entry `a` is listed before the entry `b`: a directory before
/// a file, and of two of a kind the one whose name comes first.
pub open spec fn listed_before(a: ListedEntryView, b: ListedEntryView) -> bool {
    if a.is_dir != b.is_dir {
        a.is_dir
    } else {
        text_before(a.name, b.name)
    }
}

/// Whether no entry stands behind one that it is listed before.
pub open spec fn in_listing_order(entries: Seq<ListedEntryView>) -> bool {
    forall|i: int, j: int|
        0 <= i < j < entries.len() ==> !listed_before(#[trigger] entries[j], #[trigger] entries[i])
}

/// The place of `entry` among the ordered `entries`, looked for from the
/// place `from` on: before the first entry that it is listed before.
pub open spec fn place_from(
    entries: Seq<ListedEntryView>,
    entry: ListedEntryView,
    from: int,
) -> int
    decreases entries.len() - from,
{
    if from < 0 || from >= entries.len() || listed_before(entry, entries[from]) {
        from
    } else {
        place_from(entries, entry, from + 1)
    }
}

/// The entries in the order of the listing. Each entry in turn takes its
/// place among those before it, so that of two entries of which neither is
/// listed before the other the one that came first stays first.
pub open spec fn listing_order(entries: Seq<ListedEntryView>) -> Seq<ListedEntryView>
    decreases entries.len(),
{
    if entries.len() == 0 {
        Seq::empty()
    } else {
        let ordered = listing_order(entries.drop_last());
        ordered.insert(place_from(ordered, entries.last(), 0), entries.last())
    }
}

/// The size that an entry shows: a directory shows none.
pub open spec fn shown_size(entry: ListedEntryView) -> Seq<char> {
    if entry.is_dir {
        Seq::empty()
    } else {
        entry.size_text
    }
}

/// The mark of an entry's kind.
pub open spec fn kind_mark(entry: ListedEntryView) -> Seq<char> {
    if entry.is_dir {
        "DIR "@
    } else {
        "    "@
    }
}

/// The line of one entry: the mark of its kind, its size at the right end
/// of twelve characters, and its name.
pub open spec fn entry_line(entry: ListedEntryView) -> Seq<char> {
    kind_mark(entry) + " "@ + right_aligned(shown_size(entry), SIZE_WIDTH as nat) + "  "@
        + entry.name + "\n"@
}

/// The lines of the entries, in the order given.
pub open spec fn entry_lines(entries: Seq<ListedEntryView>) -> Seq<char>
    decreases entries.len(),
{
    if entries.len() == 0 {
        Seq::empty()
    } else {
        entry_lines(entries.drop_last()) + entry_line(entries.last())
    }
}

/// The listing of the directory that the user wrote as `written_path`: a
/// heading, then the entries in the order of the listing, one per line, or a
/// note that there are none.
pub open spec fn directory_listing(written_path: Seq<char>, entries: Seq<ListedEntryView>) -> Seq<
    char,
> {
    "Directory: "@ + written_path + "\n\n"@ + if entries.len() == 0 {
        "(empty directory)\n"@
    } else {
        entry_lines(listing_order(entries))
    }
}

/// No text comes before itself.
pub proof fn lemma_text_before_irreflexive(a: Seq<char>, from: int)
    ensures
        !text_before_from(a, a, from),
    decreases a.len() - from,
{
    if 0 <= from < a.len() {
        lemma_text_before_irreflexive(a, from + 1);
    }
}

/// If `a` comes before `b` and `b` before `c`, then `a` comes before `c`.
pub proof fn lemma_text_before_transitive(a: Seq<char>, b: Seq<char>, c: Seq<char>, from: int)
    requires
        text_before_from(a, b, from),
        text_before_from(b, c, from),
    ensures
        text_before_from(a, c, from),
    decreases a.len() - from,
{
    if from < a.len() && a[from] == b[from] && b[from] == c[from] {
        lemma_text_before_transitive(a, b, c, from + 1);
    }
}

/// Being listed before is a strict order: no entry is listed before itself,
/// and if `a` is listed before `b` and `b` before `c`, then `a` is listed
/// before `c`.
pub proof fn lemma_listed_before_strict(a: ListedEntryView, b: ListedEntryView, c: ListedEntryView)
    ensures
        !listed_before(a, a),
        listed_before(a, b) ==> !listed_before(b, a),
        listed_before(a, b) && listed_before(b, c) ==> listed_before(a, c),
{
    lemma_text_before_irreflexive(a.name, 0);
    if listed_before(a, b) && listed_before(b, a) {
        lemma_text_before_transitive(a.name, b.name, a.name, 0);
    }
    if listed_before(a, b) && listed_before(b, c) && a.is_dir == b.is_dir && b.is_dir == c.is_dir {
        lemma_text_before_transitive(a.name, b.name, c.name, 0);
    }
}

/// The place of an entry is behind every entry that it is not listed before,
/// as far as looked, and at the first that it is listed before.
pub proof fn lemma_place_from(entries: Seq<ListedEntryView>, entry: ListedEntryView, from: int)
    requires
        0 <= from <= entries.len(),
    ensures
        from <= place_from(entries, entry, from) <= entries.len(),
        forall|j: int|
            from <= j < place_from(entries, entry, from) ==> !listed_before(
                entry,
                #[trigger] entries[j],
            ),
        place_from(entries, entry, from) < entries.len() ==> listed_before(
            entry,
            entries[place_from(entries, entry, from)],
        ),
    decreases entries.len() - from,
{
    if from < entries.len() && !listed_before(entry, entries[from]) {
        lemma_place_from(entries, entry, from + 1);
    }
}

/// An entry that takes its place among ordered entries leaves them ordered.
pub proof fn lemma_place_keeps_order(entries: Seq<ListedEntryView>, entry: ListedEntryView)
    requires
        in_listing_order(entries),
    ensures
        in_listing_order(entries.insert(place_from(entries, entry, 0), entry)),
{
    let place = place_from(entries, entry, 0);
    let placed = entries.insert(place, entry);
    lemma_place_from(entries, entry, 0);
    assert forall|i: int, j: int| 0 <= i < j < placed.len() implies !listed_before(
        #[trigger] placed[j],
        #[trigger] placed[i],
    ) by {
        if i == place {
            // What stands behind the place is not listed before the entry.
            let behind = entries[j - 1];
            assert(placed[j] == behind);
            assert(listed_before(entry, entries[place]));
            if place < j - 1 {
                assert(!listed_before(entries[j - 1], entries[place]));
            }
            lemma_listed_before_strict(behind, entry, entries[place]);
            lemma_listed_before_strict(entry, entries[place], entry);
        } else if j == place {
            assert(placed[i] == entries[i]);
        } else {
            let first = if i < place {
                i
            } else {
                i - 1
            };
            let second = if j < place {
                j
            } else {
                j - 1
            };
            assert(placed[i] == entries[first]);
            assert(placed[j] == entries[second]);
        }
    }
}

/// The order of the listing holds the entries given, each as often as it
/// was given, and no entry in it stands behind one that it is listed before.
pub proof fn lemma_listing_order(entries: Seq<ListedEntryView>)
    ensures
        listing_order(entries).len() == entries.len(),
        listing_order(entries).to_multiset() == entries.to_multiset(),
        in_listing_order(listing_order(entries)),
    decreases entries.len(),
{
    broadcast use group_to_multiset_ensures;

    if entries.len() == 0 {
        assert(entries =~= Seq::empty());
    } else {
        let rest = entries.drop_last();
        let entry = entries.last();
        let ordered = listing_order(rest);
        lemma_listing_order(rest);
        lemma_place_from(ordered, entry, 0);
        lemma_place_keeps_order(ordered, entry);
        let place = place_from(ordered, entry, 0);
        let placed = ordered.insert(place, entry);
        assert(placed.remove(place) =~= ordered);
        assert(placed[place] == entry);
        assert(placed.to_multiset().remove(entry) == ordered.to_multiset());
        assert(placed.contains(entry));
        assert(placed.to_multiset() =~= ordered.to_multiset().insert(entry));
        assert(entries =~= rest.push(entry));
        assert(entries.to_multiset() =~= rest.to_multiset().insert(entry));
    }
}

/// Whether the name `a` comes before the name `b`.
pub fn name_before(a: &str, b: &str) -> (r: bool)
    ensures
        r == text_before(a@, b@),
{
    let a_len = a.unicode_len();
    let b_len = b.unicode_len();
    let mut i: usize = 0;
    while i < a_len && i < b_len
        invariant
            a_len == a@.len(),
            b_len == b@.len(),
            i <= a_len,
            i <= b_len,
            text_before(a@, b@) == text_before_from(a@, b@, i as int),
        decreases a_len - i,
    {
        let x = a.get_char(i);
        let y = b.get_char(i);
        if x != y {
            return (x as u32) < (y as u32);
        }
        i += 1;
    }
    i < b_len
}

/// Whether the entry `a` is listed before the entry `b`.
pub fn entry_before(a: &ListedEntry, b: &ListedEntry) -> (r: bool)
    ensures
        r == listed_before(a.deep_view(), b.deep_view()),
{
    if a.is_dir != b.is_dir {
        a.is_dir
    } else {
        name_before(a.name.as_str(), b.name.as_str())
    }
}

/// The place of `entry` among the ordered `entries`.
pub fn place_of(entries: &Vec<ListedEntry>, entry: &ListedEntry) -> (r: usize)
    ensures
        r == place_from(entries.deep_view(), entry.deep_view(), 0),
        r <= entries.len(),
{
    let mut i: usize = 0;
    while i < entries.len()
        invariant
            i <= entries.len(),
            place_from(entries.deep_view(), entry.deep_view(), 0) == place_from(
                entries.deep_view(),
                entry.deep_view(),
                i as int,
            ),
        decreases entries.len() - i,
    {
        assert(entries.deep_view()[i as int] == entries[i as int].deep_view());
        if entry_before(entry, &entries[i]) {
            return i;
        }
        i += 1;
    }
    i
}

/// The entries in the order of the listing.
pub fn sort_entries(entries: &Vec<ListedEntry>) -> (r: Vec<ListedEntry>)
    ensures
        r.deep_view() == listing_order(entries.deep_view()),
{
    let mut ordered: Vec<ListedEntry> = Vec::new();
    let mut i: usize = 0;
    proof {
        assert(ordered.deep_view() =~= Seq::empty());
    }
    while i < entries.len()
        invariant
            i <= entries.len(),
            ordered.deep_view() == listing_order(entries.deep_view().take(i as int)),
        decreases entries.len() - i,
    {
        let entry = ListedEntry {
            name: entries[i].name.clone(),
            is_dir: entries[i].is_dir,
            size_text: entries[i].size_text.clone(),
        };
        let place = place_of(&ordered, &entry);
        let ghost before = ordered;
        let ghost added = entry.deep_view();
        ordered.insert(place, entry);
        proof {
            let taken = entries.deep_view().take(i + 1);
            assert(added == entries.deep_view()[i as int]);
            assert(taken.drop_last() =~= entries.deep_view().take(i as int));
            assert(taken.last() == added);
            assert(ordered.deep_view() =~= before.deep_view().insert(place as int, added));
        }
        i += 1;
    }
    proof {
        assert(entries.deep_view().take(entries.len() as int) =~= entries.deep_view());
    }
    ordered
}

/// The line of one entry.
pub fn format_entry(entry: &ListedEntry) -> (r: String)
    ensures
        r@ == entry_line(entry.deep_view()),
{
    let mut out = String::new();
    let size = if entry.is_dir {
        pad_left("", SIZE_WIDTH)
    } else {
        pad_left(entry.size_text.as_str(), SIZE_WIDTH)
    };
    proof {
        reveal_strlit("");
        assert(""@ =~= Seq::<char>::empty());
    }
    if entry.is_dir {
        out.append("DIR ");
    } else {
        out.append("    ");
    }
    out.append(" ");
    out.append(size.as_str());
    out.append("  ");
    out.append(entry.name.as_str());
    out.append("\n");
    proof {
        assert(out@ =~= entry_line(entry.deep_view()));
    }
    out
}

/// The listing of the directory that the user wrote as `written_path`, with
/// the entries found in it in any order.
pub fn list_directory(written_path: &str, entries: &Vec<ListedEntry>) -> (r: String)
    ensures
        r@ == directory_listing(written_path@, entries.deep_view()),
{
    let mut out = String::new();
    out.append("Directory: ");
    out.append(written_path);
    out.append("\n\n");
    let ghost head = out@;
    proof {
        assert(head =~= "Directory: "@ + written_path@ + "\n\n"@);
    }
    if entries.len() == 0 {
        out.append("(empty directory)\n");
        return out;
    }
    let ordered = sort_entries(entries);
    let mut i: usize = 0;
    proof {
        assert(ordered.deep_view().take(0) =~= Seq::empty());
    }
    while i < ordered.len()
        invariant
            i <= ordered.len(),
            out@ == head + entry_lines(ordered.deep_view().take(i as int)),
        decreases ordered.len() - i,
    {
        let line = format_entry(&ordered[i]);
        out.append(line.as_str());
        proof {
            let taken = ordered.deep_view().take(i + 1);
            assert(taken.drop_last() =~= ordered.deep_view().take(i as int));
            assert(taken.last() == ordered[i as int].deep_view());
            assert(out@ =~= head + entry_lines(taken));
        }
        i += 1;
    }
    proof {
        assert(ordered.deep_view().take(ordered.len() as int) =~= ordered.deep_view());
    }
    out
}

/// The blocks for an attached directory: one text block with its listing.
pub fn read_directory(written_path: &str, entries: &Vec<ListedEntry>) -> (r: Vec<ContentBlock>)
    ensures
        r.deep_view() == seq![
            ContentBlockView::Text { text: directory_listing(written_path@, entries.deep_view()) },
        ],
{
    let mut blocks: Vec<ContentBlock> = Vec::new();
    blocks.push(ContentBlock::Text { text: list_directory(written_path, entries) });
    proof {
        assert(blocks.deep_view() =~= seq![
            ContentBlockView::Text { text: directory_listing(written_path@, entries.deep_view()) },
        ]);
    }
    blocks
}

} // verus!
