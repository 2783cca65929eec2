use vstd::prelude::*;
use vstd::string::StringExecFns;

verus! {

/// Whether a character is white space, that is, has the Unicode property
/// `White_Space`: the tab to the carriage return, the space, the next
/// line character, the no-break space, the Ogham space mark, the spaces
/// from the en quad to the hair space, the line and the paragraph
/// separator, the narrow no-break space, the medium mathematical space
/// and the ideographic space.
pub open spec fn is_white_space(c: char) -> bool {
    let code = c as u32;
    ||| 0x09 <= code <= 0x0D
    ||| code == 0x20
    ||| code == 0x85
    ||| code == 0xA0
    ||| code == 0x1680
    ||| 0x2000 <= code <= 0x200A
    ||| code == 0x2028
    ||| code == 0x2029
    ||| code == 0x202F
    ||| code == 0x205F
    ||| code == 0x3000
}

/// A text without the white space at its beginning.
pub open spec fn trimmed_start(text: Seq<char>) -> Seq<char>
    decreases text.len(),
{
    if text.len() > 0 && is_white_space(text.first()) {
        trimmed_start(text.drop_first())
    } else {
        text
    }
}

/// A text without the white space at its end.
pub open spec fn trimmed_end(text: Seq<char>) -> Seq<char>
    decreases text.len(),
{
    if text.len() > 0 && is_white_space(text.last()) {
        trimmed_end(text.drop_last())
    } else {
        text
    }
}

/// A text without the white space at its beginning and at its end.
pub open spec fn trimmed(text: Seq<char>) -> Seq<char> {
    trimmed_end(trimmed_start(text))
}

/// The text that `str::to_lowercase` makes of `text`: the lower-case
/// mapping of every character, as the Unicode tables of std have it.
pub uninterp spec fn lowercased(text: Seq<char>) -> Seq<char>;

/// The text that the `{:?}` format prints for a string: the string
/// between double quotes, with the characters escaped that std escapes.
pub uninterp spec fn quoted_text(text: Seq<char>) -> Seq<char>;

/// Calls `str::trim`, which gives the text without its leading and
/// trailing white space, white space being the characters with the
/// Unicode property `White_Space`. The contract claims exactly this.
#[verifier::external_body]
pub(crate) fn trim_text(text: &str) -> (out: String)
    ensures
        out@ == trimmed(text@),
{
    text.trim().to_string()
}

/// Calls `str::to_lowercase`. The contract claims only that the result is
/// the text named [`lowercased`], a function of the argument alone.
#[verifier::external_body]
pub(crate) fn lowercase_text(text: &str) -> (out: String)
    ensures
        out@ == lowercased(text@),
{
    text.to_lowercase()
}

/// Formats a string with `{:?}`, that is with the `Debug` impl that std
/// has for `str`. The contract claims only that the result is the text
/// named [`quoted_text`], a function of the argument alone.
#[verifier::external_body]
pub(crate) fn quote_text(text: &str) -> (out: String)
    ensures
        out@ == quoted_text(text@),
{
    format!("{:?}", text)
}

/// Whether two texts hold the same characters.
pub fn same_text(left: &str, right: &str) -> (same: bool)
    ensures
        same == (left@ == right@),
{
    let left_owned = left.to_owned();
    let right_owned = right.to_owned();
    left_owned == right_owned
}

/// The two texts, one after the other.
pub fn join_text(left: &str, right: &str) -> (out: String)
    ensures
        out@ == left@ + right@,
{
    let mut out = String::from_str(left);
    out.append(right);
    out
}

/// How an optional value is written: `None`, or `Some(..)` around the
/// text of the value.
pub open spec fn optional_rendering(inner: Option<Seq<char>>) -> Seq<char> {
    match inner {
        Some(text) => "Some("@ + text + ")"@,
        None => "None"@,
    }
}

/// How an optional string is written: `None`, or `Some(..)` around the
/// quoted string.
pub open spec fn optional_text(value: Option<Seq<char>>) -> Seq<char> {
    match value {
        Some(text) => optional_rendering(Some(quoted_text(text))),
        None => optional_rendering(None),
    }
}

/// Writes an optional value whose text is given.
pub fn render_optional(inner: Option<String>) -> (out: String)
    ensures
        out@ == optional_rendering(inner.deep_view()),
{
    match inner {
        Some(text) => {
            let mut out = String::from_str("Some(");
            out.append(text.as_str());
            out.append(")");
            out
        },
        None => String::from_str("None"),
    }
}

/// Writes an optional string.
pub fn render_optional_text(value: &Option<String>) -> (out: String)
    ensures
        out@ == optional_text(value.deep_view()),
{
    match value {
        Some(text) => render_optional(Some(quote_text(text.as_str()))),
        None => render_optional(None),
    }
}

/// The texts of a list with `, ` between them.
pub open spec fn joined_texts(items: Seq<Seq<char>>) -> Seq<char>
    decreases items.len(),
{
    if items.len() == 0 {
        Seq::empty()
    } else if items.len() == 1 {
        items[0]
    } else {
        joined_texts(items.drop_last()) + ", "@ + items.last()
    }
}

/// How a list is written: its items between square brackets, with `, `
/// between them.
pub open spec fn listed_texts(items: Seq<Seq<char>>) -> Seq<char> {
    "["@ + joined_texts(items) + "]"@
}

/// Writes a list whose items are given as texts.
pub fn render_list(items: &Vec<String>) -> (out: String)
    ensures
        out@ == listed_texts(items.deep_view()),
{
    let mut out = String::from_str("[");
    let mut index: usize = 0;
    let ghost texts = items.deep_view();
    assert(texts.take(0) =~= Seq::<Seq<char>>::empty());
    assert(out@ =~= "["@ + joined_texts(texts.take(0)));
    while index < items.len()
        invariant
            index <= items.len(),
            texts == items.deep_view(),
            out@ == "["@ + joined_texts(texts.take(index as int)),
        decreases items.len() - index,
    {
        let ghost before = joined_texts(texts.take(index as int));
        proof {
            let next = texts.take(index + 1);
            assert(next.drop_last() =~= texts.take(index as int));
            assert(next.last() == items[index as int]@);
        }
        if index > 0 {
            out.append(", ");
        }
        out.append(items[index].as_str());
        proof {
            if index > 0 {
                assert(out@ =~= "["@ + (before + ", "@ + items[index as int]@));
            } else {
                assert(before =~= Seq::<char>::empty());
                assert(out@ =~= "["@ + items[index as int]@);
            }
        }
        index += 1;
    }
    assert(texts.take(index as int) =~= texts);
    out.append("]");
    out
}

/// How a truth value is written.
pub open spec fn bool_text(value: bool) -> Seq<char> {
    if value {
        "true"@
    } else {
        "false"@
    }
}

/// Writes a truth value.
pub fn render_bool(value: bool) -> (out: &'static str)
    ensures
        out@ == bool_text(value),
{
    if value {
        "true"
    } else {
        "false"
    }
}

/// What trimming at the beginning leaves: the end of the text from some
/// place on, before which all is white space and at which no white space
/// stands.
pub proof fn lemma_trimmed_start(text: Seq<char>) -> (start: int)
    ensures
        0 <= start <= text.len(),
        trimmed_start(text) == text.subrange(start, text.len() as int),
        forall|i: int| 0 <= i < start ==> is_white_space(#[trigger] text[i]),
        start < text.len() ==> !is_white_space(text[start]),
    decreases text.len(),
{
    if text.len() > 0 && is_white_space(text.first()) {
        let inner = lemma_trimmed_start(text.drop_first());
        assert(text.drop_first().subrange(inner, text.drop_first().len() as int)
            =~= text.subrange(inner + 1, text.len() as int));
        assert forall|i: int| 0 <= i < inner + 1 implies is_white_space(#[trigger] text[i]) by {
            if i > 0 {
                assert(text[i] == text.drop_first()[i - 1]);
            }
        }
        inner + 1
    } else {
        assert(text.subrange(0, text.len() as int) =~= text);
        0
    }
}

/// What trimming at the end leaves: the beginning of the text up to some
/// place, from which on all is white space and before which no white
/// space stands.
pub proof fn lemma_trimmed_end(text: Seq<char>) -> (end: int)
    ensures
        0 <= end <= text.len(),
        trimmed_end(text) == text.subrange(0, end),
        forall|i: int| end <= i < text.len() ==> is_white_space(#[trigger] text[i]),
        0 < end ==> !is_white_space(text[end - 1]),
    decreases text.len(),
{
    if text.len() > 0 && is_white_space(text.last()) {
        let inner = lemma_trimmed_end(text.drop_last());
        assert(text.drop_last().subrange(0, inner) =~= text.subrange(0, inner));
        assert forall|i: int| inner <= i < text.len() implies is_white_space(
            #[trigger] text[i],
        ) by {
            if i < text.len() - 1 {
                assert(text[i] == text.drop_last()[i]);
            }
        }
        inner
    } else {
        assert(text.subrange(0, text.len() as int) =~= text);
        text.len() as int
    }
}

/// What trimming leaves: the part of the text between two places, with
/// nothing but white space before the first and from the second on, and
/// with no white space at either end of the part.
pub proof fn lemma_trimmed_is_the_inner_part(text: Seq<char>) -> (bounds: (int, int))
    ensures
        0 <= bounds.0 <= bounds.1 <= text.len(),
        trimmed(text) == text.subrange(bounds.0, bounds.1),
        forall|i: int| 0 <= i < bounds.0 ==> is_white_space(#[trigger] text[i]),
        forall|i: int| bounds.1 <= i < text.len() ==> is_white_space(#[trigger] text[i]),
        bounds.0 < bounds.1 ==> !is_white_space(text[bounds.0]) && !is_white_space(
            text[bounds.1 - 1],
        ),
{
    let start = lemma_trimmed_start(text);
    let rest = text.subrange(start, text.len() as int);
    let end = lemma_trimmed_end(rest);
    assert(rest.subrange(0, end) =~= text.subrange(start, start + end));
    assert forall|i: int| start + end <= i < text.len() implies is_white_space(
        #[trigger] text[i],
    ) by {
        assert(text[i] == rest[i - start]);
    }
    if end > 0 {
        assert(rest[end - 1] == text[start + end - 1]);
        assert(rest[0] == text[start]);
    }
    (start, start + end)
}

/// A text that neither begins nor ends with white space is its own
/// trimmed text.
pub proof fn lemma_trimmed_of_a_tight_text(text: Seq<char>)
    requires
        text.len() == 0 || (!is_white_space(text.first()) && !is_white_space(text.last())),
    ensures
        trimmed(text) == text,
{
}

/// White space around a text does not change what trimming leaves of it:
/// the trimmed text of `before + core + after`, where `before` and `after`
/// are white space and `core` is tight, is `core`.
pub proof fn lemma_trimmed_of_padded(before: Seq<char>, core: Seq<char>, after: Seq<char>)
    requires
        forall|i: int| 0 <= i < before.len() ==> is_white_space(#[trigger] before[i]),
        forall|i: int| 0 <= i < after.len() ==> is_white_space(#[trigger] after[i]),
        core.len() == 0 || (!is_white_space(core.first()) && !is_white_space(core.last())),
    ensures
        trimmed(before + core + after) == core,
{
    lemma_trimmed_start_of_padded(before, core + after);
    lemma_trimmed_start_of_tight(core, after);
    lemma_trimmed_end_of_padded(core, after);
    assert(before + core + after =~= before + (core + after));
}

/// Trimming at the beginning takes a prefix of white space away.
proof fn lemma_trimmed_start_of_padded(before: Seq<char>, rest: Seq<char>)
    requires
        forall|i: int| 0 <= i < before.len() ==> is_white_space(#[trigger] before[i]),
    ensures
        trimmed_start(before + rest) == trimmed_start(rest),
    decreases before.len(),
{
    if before.len() == 0 {
        assert(before + rest =~= rest);
    } else {
        assert((before + rest).first() == before[0]);
        assert((before + rest).drop_first() =~= before.drop_first() + rest);
        assert forall|i: int| 0 <= i < before.drop_first().len() implies is_white_space(
            #[trigger] before.drop_first()[i],
        ) by {
            assert(before.drop_first()[i] == before[i + 1]);
        }
        lemma_trimmed_start_of_padded(before.drop_first(), rest);
    }
}

/// Trimming at the beginning leaves a text alone that begins with a tight
/// text, or that is nothing but white space behind an empty one.
proof fn lemma_trimmed_start_of_tight(core: Seq<char>, after: Seq<char>)
    requires
        forall|i: int| 0 <= i < after.len() ==> is_white_space(#[trigger] after[i]),
        core.len() == 0 || !is_white_space(core.first()),
    ensures
        trimmed_end(trimmed_start(core + after)) == trimmed_end(core + after),
{
    if core.len() == 0 {
        assert(core + after =~= after);
        lemma_trimmed_start_of_padded(after, Seq::<char>::empty());
        assert(after + Seq::<char>::empty() =~= after);
        lemma_trimmed_end_of_padded(Seq::<char>::empty(), after);
        assert(Seq::<char>::empty() + after =~= after);
    } else {
        assert((core + after).first() == core.first());
    }
}

/// Trimming at the end takes a suffix of white space away.
proof fn lemma_trimmed_end_of_padded(core: Seq<char>, after: Seq<char>)
    requires
        forall|i: int| 0 <= i < after.len() ==> is_white_space(#[trigger] after[i]),
        core.len() == 0 || !is_white_space(core.last()),
    ensures
        trimmed_end(core + after) == core,
    decreases after.len(),
{
    if after.len() == 0 {
        assert(core + after =~= core);
    } else {
        assert((core + after).last() == after.last());
        assert((core + after).drop_last() =~= core + after.drop_last());
        assert forall|i: int| 0 <= i < after.drop_last().len() implies is_white_space(
            #[trigger] after.drop_last()[i],
        ) by {
            assert(after.drop_last()[i] == after[i]);
        }
        lemma_trimmed_end_of_padded(core, after.drop_last());
    }
}

} // verus!
