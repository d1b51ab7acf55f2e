//! Splitting a comma-separated list into its entries.
use vstd::prelude::*;
use vstd::string::*;

verus! {

/// The character that separates the entries of a list.
pub open spec fn separator() -> char {
    ','
}

/// The entries of `text`, in order. Reading from the left, a separator closes
/// the current entry and opens an empty one; any other character joins the
/// current entry. Nothing is trimmed and nothing is dropped: the empty text has
/// one entry, the empty one.
pub open spec fn split(text: Seq<char>) -> Seq<Seq<char>>
    decreases text.len(),
{
    if text.len() == 0 {
        seq![Seq::<char>::empty()]
    } else if text.last() == separator() {
        split(text.drop_last()).push(Seq::<char>::empty())
    } else {
        let before = split(text.drop_last());
        before.drop_last().push(before.last().push(text.last()))
    }
}

/// The entries written one after the other with a separator between neighbours.
pub open spec fn join(entries: Seq<Seq<char>>) -> Seq<char>
    decreases entries.len(),
{
    if entries.len() == 0 {
        Seq::<char>::empty()
    } else if entries.len() == 1 {
        entries[0]
    } else {
        join(entries.drop_last()).push(separator()) + entries.last()
    }
}

/// How many separators `text` holds.
pub open spec fn separators_in(text: Seq<char>) -> nat
    decreases text.len(),
{
    if text.len() == 0 {
        0
    } else if text.last() == separator() {
        separators_in(text.drop_last()) + 1
    } else {
        separators_in(text.drop_last())
    }
}

/// Whether no character of `text` is a separator.
pub open spec fn holds_no_separator(text: Seq<char>) -> bool {
    forall|i: int| 0 <= i < text.len() ==> text[i] != separator()
}

/// The characters of each slice.
pub open spec fn texts(entries: Seq<&str>) -> Seq<Seq<char>> {
    entries.map_values(|entry: &str| entry@)
}

/// Splits `text` at every separator. The entries are slices of `text`, in the
/// order in which they stand there.
pub fn split_entries<'a>(text: &'a str) -> (entries: Vec<&'a str>)
    ensures
        texts(entries@) == split(text@),
{
    broadcast use vstd::string::group_string_axioms;

    let length: usize = text.unicode_len();
    let mut entries: Vec<&'a str> = Vec::new();
    let mut start: usize = 0;
    let mut position: usize = 0;
    assert(text@.take(0) =~= Seq::<char>::empty());
    for c in it: text.chars()
        invariant
            it.seq() == text@,
            length == text@.len(),
            position == it.index(),
            start <= position <= length,
            split(text@.take(position as int)) == texts(entries@).push(
                text@.subrange(start as int, position as int),
            ),
    {
        let ghost before = text@.take(position as int);
        let ghost after = text@.take(position + 1);
        assert(after.drop_last() =~= before);
        assert(after.last() == c);
        if c == ',' {
            let entry = text.substring_char(start, position);
            entries.push(entry);
            start = position + 1;
            assert(texts(entries@) =~= split(before));
            assert(text@.subrange(start as int, position + 1) =~= Seq::<char>::empty());
        } else {
            assert(text@.subrange(start as int, position + 1) =~= text@.subrange(
                start as int,
                position as int,
            ).push(c));
            assert(split(after).drop_last() =~= texts(entries@));
        }
        position = position + 1;
    }
    let entry = text.substring_char(start, length);
    entries.push(entry);
    assert(text@.take(length as int) =~= text@);
    entries
}

/// A text has one entry more than it has separators; so it always has one.
pub proof fn lemma_entry_count(text: Seq<char>)
    ensures
        split(text).len() == separators_in(text) + 1,
    decreases text.len(),
{
    if text.len() > 0 {
        lemma_entry_count(text.drop_last());
    }
}

/// Joining the entries of a text gives the text back: splitting loses nothing.
pub proof fn lemma_join_of_split(text: Seq<char>)
    ensures
        join(split(text)) == text,
    decreases text.len(),
{
    if text.len() > 0 {
        let shorter = text.drop_last();
        let before = split(shorter);
        lemma_entry_count(shorter);
        lemma_join_of_split(shorter);
        if text.last() == separator() {
            let after = before.push(Seq::<char>::empty());
            assert(after.drop_last() =~= before);
            assert(join(after) =~= shorter.push(separator()));
        } else {
            let after = before.drop_last().push(before.last().push(text.last()));
            assert(after.drop_last() =~= before.drop_last());
            assert(join(after) =~= shorter.push(text.last()));
        }
        assert(shorter.push(text.last()) =~= text);
    }
}

/// No entry holds a separator.
pub proof fn lemma_entries_hold_no_separator(text: Seq<char>)
    ensures
        forall|k: int| 0 <= k < split(text).len() ==> holds_no_separator(#[trigger] split(text)[k]),
    decreases text.len(),
{
    if text.len() > 0 {
        lemma_entry_count(text.drop_last());
        lemma_entries_hold_no_separator(text.drop_last());
    }
}

/// A text without a separator is its own and only entry.
pub proof fn lemma_split_of_one(entry: Seq<char>)
    requires
        holds_no_separator(entry),
    ensures
        split(entry) == seq![entry],
    decreases entry.len(),
{
    if entry.len() == 0 {
        assert(entry =~= Seq::<char>::empty());
    } else {
        lemma_split_of_one(entry.drop_last());
        assert(entry.drop_last().push(entry.last()) =~= entry);
        assert(split(entry) =~= seq![entry]);
    }
}

/// What stands behind the last separator of a text is its last entry, and
/// what stands before that separator gives the entries before it.
pub proof fn lemma_split_after_separator(text: Seq<char>, entry: Seq<char>)
    requires
        holds_no_separator(entry),
    ensures
        split(text.push(separator()) + entry) == split(text).push(entry),
    decreases entry.len(),
{
    let whole = text.push(separator()) + entry;
    if entry.len() == 0 {
        assert(entry =~= Seq::<char>::empty());
        assert(whole.drop_last() =~= text);
    } else {
        let shorter = entry.drop_last();
        lemma_split_after_separator(text, shorter);
        assert(whole.drop_last() =~= text.push(separator()) + shorter);
        assert(shorter.push(entry.last()) =~= entry);
        assert(split(whole) =~= split(text).push(entry));
    }
}

/// Splitting what was joined gives the entries back, where there is at least
/// one entry and none holds a separator: the entries of a text are the only
/// such list that joins to it.
pub proof fn lemma_split_of_join(entries: Seq<Seq<char>>)
    requires
        entries.len() > 0,
        forall|k: int| 0 <= k < entries.len() ==> holds_no_separator(#[trigger] entries[k]),
    ensures
        split(join(entries)) == entries,
    decreases entries.len(),
{
    if entries.len() == 1 {
        lemma_split_of_one(entries[0]);
        assert(seq![entries[0]] =~= entries);
    } else {
        let before = entries.drop_last();
        assert forall|k: int| 0 <= k < before.len() implies holds_no_separator(
            #[trigger] before[k],
        ) by {
            assert(before[k] == entries[k]);
        }
        lemma_split_of_join(before);
        lemma_split_after_separator(join(before), entries.last());
        assert(before.push(entries.last()) =~= entries);
    }
}

} // verus!
