//! File names of new notes: the user's text, the time of creation and the
//! category.

use crate::error::{same_outcome, TinoError, TinoErrorView};
use vstd::prelude::*;

verus! {

/// The pattern by which the time of creation is written into a file name:
/// year, month, day, `T`, hour, minute, second, so that names sort by time.
pub const TIMESTAMP_FORMAT: &'static str = "%Y-%m-%dT%H:%M:%S";

/// Whether `c` is white space as `char::is_whitespace` tells it: whether it
/// has the Unicode property `White_Space`.
pub uninterp spec fn is_whitespace(c: char) -> bool;

/// `text` without the white space that it begins with.
pub open spec fn without_leading_whitespace(text: Seq<char>) -> Seq<char>
    decreases text.len(),
{
    if text.len() > 0 && is_whitespace(text.first()) {
        without_leading_whitespace(text.drop_first())
    } else {
        text
    }
}

/// `text` without the white space that it ends with.
pub open spec fn without_trailing_whitespace(text: Seq<char>) -> Seq<char>
    decreases text.len(),
{
    if text.len() > 0 && is_whitespace(text.last()) {
        without_trailing_whitespace(text.drop_last())
    } else {
        text
    }
}

/// `text` without the white space at either end.
pub open spec fn trimmed(text: Seq<char>) -> Seq<char> {
    without_trailing_whitespace(without_leading_whitespace(text))
}

/// The file name of a note: `text` (already trimmed), then the timestamp,
/// then the category, each part only where it is not empty, and `.md`.
pub open spec fn file_name(text: Seq<char>, category: Seq<char>, timestamp: Seq<char>) -> Seq<
    char,
> {
    if text.len() == 0 && category.len() == 0 {
        timestamp + ".md"@
    } else if text.len() == 0 {
        timestamp + " - "@ + category + ".md"@
    } else if category.len() == 0 {
        text + " "@ + timestamp + ".md"@
    } else {
        text + " "@ + timestamp + " - "@ + category + ".md"@
    }
}

/// What naming a note gives: the file name of the trimmed text under the
/// selected category, or an error where no category is selected.
pub open spec fn generated(
    user_text: Seq<char>,
    category: Option<Seq<char>>,
    timestamp: Seq<char>,
) -> Result<Seq<char>, TinoErrorView> {
    match category {
        Some(c) => Ok(file_name(trimmed(user_text), c, timestamp)),
        None => Err(TinoErrorView::NotSelectedCategory),
    }
}

/// `str::trim` of std: the slice of `text` that is left when the white
/// space at both ends is removed, white space being the characters with the
/// Unicode property `White_Space`. Where anything is left, it begins and
/// ends with a character that is no white space.
#[verifier::external_body]
fn trim(text: &str) -> (rest: &str)
    ensures
        rest@ == trimmed(text@),
        rest@.len() > 0 ==> !is_whitespace(rest@.first()) && !is_whitespace(rest@.last()),
{
    text.trim()
}

/// `chrono::Utc::now`, written out by `DateTime::format` with `pattern`:
/// the current time in UTC as text. Which time it is, is the clock's. The
/// shape of the text is the pattern's, as chrono's table of format
/// specifiers gives it: `%Y` writes the year with four digits, and with a
/// sign where it lies before 0 or after 9999; `%m`, `%d`, `%H`, `%M` and
/// `%S` write two digits each; all else is written as it stands. The
/// pattern is the one that this crate uses; chrono accepts it. `Utc::now`
/// expects a system clock that is not set before 1970.
#[verifier::external_body]
fn utc_now_formatted(pattern: &str) -> (timestamp: String)
    requires
        pattern@ == TIMESTAMP_FORMAT@,
    ensures
        is_timestamp(timestamp@),
{
    chrono::Utc::now().format(pattern).to_string()
}

/// The current time in UTC, written as file names carry it: year, month,
/// day, `T`, hour, minute and second, as [`is_timestamp`] says.
pub fn timestamp_now() -> (timestamp: String)
    ensures
        is_timestamp(timestamp@),
{
    utc_now_formatted(TIMESTAMP_FORMAT)
}

/// Whether `c` is one of the digits `0` to `9`.
pub open spec fn is_digit(c: char) -> bool {
    '0' <= c && c <= '9'
}

/// Whether `text` is a year as a timestamp carries it: four digits; or,
/// for a year before 0 or after 9999, a sign and at least four digits.
pub open spec fn is_year(text: Seq<char>) -> bool {
    &&& text.len() >= 4
    &&& if text.len() == 4 {
        is_digit(text[0])
    } else {
        text[0] == '+' || text[0] == '-'
    }
    &&& forall|i: int| 1 <= i < text.len() ==> is_digit(#[trigger] text[i])
}

/// Whether `text` is what follows the year in a timestamp: `-MM-DDTHH:MM:SS`,
/// two digits for each letter pair.
pub open spec fn is_month_day_time(text: Seq<char>) -> bool {
    &&& text.len() == 15
    &&& text[0] == '-'
    &&& text[3] == '-'
    &&& text[6] == 'T'
    &&& text[9] == ':'
    &&& text[12] == ':'
    &&& forall|i: int| 0 <= i < 15 && i % 3 != 0 ==> is_digit(#[trigger] text[i])
}

/// Whether `text` is a timestamp: a year, and month, day and time of day
/// behind it, as in `2024-05-17T08:30:00`.
pub open spec fn is_timestamp(text: Seq<char>) -> bool {
    &&& text.len() >= 19
    &&& is_year(text.take(text.len() - 15))
    &&& is_month_day_time(text.skip(text.len() - 15))
}

/// Puts a file name together from a text that is already trimmed, a
/// category name and a timestamp.
pub fn compose_file_name(text: &str, category: &str, timestamp: &str) -> (name: String)
    ensures
        name@ == file_name(text@, category@, timestamp@),
{
    let mut name = String::new();
    if !text.is_empty() {
        name.append(text);
        name.append(" ");
    }
    name.append(timestamp);
    if !category.is_empty() {
        name.append(" - ");
        name.append(category);
    }
    name.append(".md");
    name
}

/// Names a note: trims `user_text` and puts the file name together from
/// it, the timestamp and the category. The empty category is a category;
/// no category at all is an error.
pub fn generate(user_text: &str, category: Option<&str>, timestamp: &str) -> (result: Result<
    String,
    TinoError,
>)
    ensures
        same_outcome(
            result,
            generated(
                user_text@,
                match category {
                    Some(c) => Some(c@),
                    None => None,
                },
                timestamp@,
            ),
        ),
{
    match category {
        Some(c) => Ok(compose_file_name(trim(user_text), c, timestamp)),
        None => Err(TinoError::NotSelectedCategory),
    }
}

/// Every file name ends in `.md`.
pub proof fn lemma_file_name_ends_in_md(text: Seq<char>, category: Seq<char>, timestamp: Seq<char>)
    ensures
        file_name(text, category, timestamp).len() >= 3,
        file_name(text, category, timestamp).subrange(
            file_name(text, category, timestamp).len() - 3,
            file_name(text, category, timestamp).len() as int,
        ) == seq!['.', 'm', 'd'],
{
    reveal_strlit(".md");
}

/// The place at which a file name holds its timestamp: the start, or
/// behind the text and one space.
pub open spec fn timestamp_offset(text: Seq<char>) -> int {
    if text.len() == 0 {
        0
    } else {
        (text.len() + 1) as int
    }
}

/// Every file name holds the timestamp letter for letter, at
/// [`timestamp_offset`].
pub proof fn lemma_file_name_holds_timestamp(
    text: Seq<char>,
    category: Seq<char>,
    timestamp: Seq<char>,
)
    ensures
        timestamp_offset(text) + timestamp.len() <= file_name(text, category, timestamp).len(),
        file_name(text, category, timestamp).subrange(
            timestamp_offset(text),
            timestamp_offset(text) + timestamp.len(),
        ) == timestamp,
{
    reveal_strlit(" ");
}

/// A file name begins with the text where there is one, and the text is
/// then followed by a space.
pub proof fn lemma_file_name_begins_with_text(
    text: Seq<char>,
    category: Seq<char>,
    timestamp: Seq<char>,
)
    requires
        text.len() > 0,
    ensures
        file_name(text, category, timestamp).len() > text.len(),
        file_name(text, category, timestamp).subrange(0, text.len() as int) == text,
        file_name(text, category, timestamp)[text.len() as int] == ' ',
{
    reveal_strlit(" ");
}

/// The number of white-space characters that `text` begins with.
pub open spec fn leading_whitespace(text: Seq<char>) -> nat
    decreases text.len(),
{
    if text.len() > 0 && is_whitespace(text.first()) {
        1 + leading_whitespace(text.drop_first())
    } else {
        0
    }
}

/// The number of white-space characters that `text` ends with.
pub open spec fn trailing_whitespace(text: Seq<char>) -> nat
    decreases text.len(),
{
    if text.len() > 0 && is_whitespace(text.last()) {
        1 + trailing_whitespace(text.drop_last())
    } else {
        0
    }
}

/// Removing the leading white space removes exactly the white-space
/// characters before the first character that is none.
pub proof fn lemma_without_leading_whitespace(text: Seq<char>)
    ensures
        leading_whitespace(text) <= text.len(),
        without_leading_whitespace(text) == text.skip(leading_whitespace(text) as int),
        forall|k: int| 0 <= k < leading_whitespace(text) ==> is_whitespace(#[trigger] text[k]),
        leading_whitespace(text) < text.len() ==> !is_whitespace(
            text[leading_whitespace(text) as int],
        ),
    decreases text.len(),
{
    if text.len() > 0 && is_whitespace(text.first()) {
        let rest = text.drop_first();
        lemma_without_leading_whitespace(rest);
        assert(rest.skip(leading_whitespace(rest) as int) =~= text.skip(
            leading_whitespace(text) as int,
        ));
        assert forall|k: int| 0 <= k < leading_whitespace(text) implies is_whitespace(
            #[trigger] text[k],
        ) by {
            if k > 0 {
                assert(text[k] == rest[k - 1]);
            }
        }
    } else {
        assert(text.skip(0) =~= text);
    }
}

/// Removing the trailing white space removes exactly the white-space
/// characters behind the last character that is none.
pub proof fn lemma_without_trailing_whitespace(text: Seq<char>)
    ensures
        trailing_whitespace(text) <= text.len(),
        without_trailing_whitespace(text) == text.take(text.len() - trailing_whitespace(text)),
        forall|k: int|
            text.len() - trailing_whitespace(text) <= k < text.len() ==> is_whitespace(
                #[trigger] text[k],
            ),
        trailing_whitespace(text) < text.len() ==> !is_whitespace(
            text[text.len() - trailing_whitespace(text) - 1],
        ),
    decreases text.len(),
{
    if text.len() > 0 && is_whitespace(text.last()) {
        let rest = text.drop_last();
        lemma_without_trailing_whitespace(rest);
        assert(rest.take(rest.len() - trailing_whitespace(rest)) =~= text.take(
            text.len() - trailing_whitespace(text),
        ));
        assert forall|k: int|
            text.len() - trailing_whitespace(text) <= k < text.len() implies is_whitespace(
            #[trigger] text[k],
        ) by {
            if k < rest.len() {
                assert(text[k] == rest[k]);
            }
        }
    } else {
        assert(text.take(text.len() as int) =~= text);
    }
}

/// Trimming cuts a text at both ends and nowhere else: what is left is the
/// part between the leading and the trailing white space, all that is cut
/// off is white space, and what is left neither begins nor ends with white
/// space.
pub proof fn lemma_trimmed_is_the_middle(text: Seq<char>)
    ensures
        ({
            let from = leading_whitespace(text) as int;
            let to = text.len() - trailing_whitespace(text.skip(from));
            &&& 0 <= from <= to <= text.len()
            &&& trimmed(text) == text.subrange(from, to)
            &&& forall|k: int| 0 <= k < from ==> is_whitespace(#[trigger] text[k])
            &&& forall|k: int| to <= k < text.len() ==> is_whitespace(#[trigger] text[k])
        }),
        trimmed(text).len() > 0 ==> !is_whitespace(trimmed(text).first()) && !is_whitespace(
            trimmed(text).last(),
        ),
{
    let from = leading_whitespace(text) as int;
    lemma_without_leading_whitespace(text);
    let rest = text.skip(from);
    lemma_without_trailing_whitespace(rest);
    let to = text.len() - trailing_whitespace(rest);
    assert(rest.take(rest.len() - trailing_whitespace(rest)) =~= text.subrange(from, to));
    assert forall|k: int| to <= k < text.len() implies is_whitespace(#[trigger] text[k]) by {
        assert(text[k] == rest[k - from]);
    }
    if trimmed(text).len() > 0 {
        assert(trimmed(text).first() == text[from]);
        assert(trimmed(text).last() == rest[rest.len() - trailing_whitespace(rest) - 1]);
    }
}

/// A text that is trimmed stays as it is when it is trimmed again.
pub proof fn lemma_trimmed_twice(text: Seq<char>)
    ensures
        trimmed(trimmed(text)) == trimmed(text),
{
    lemma_trimmed_is_the_middle(text);
}

} // verus!
