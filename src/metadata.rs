//! The sidecar metadata file: a sequence of fields, each a header line naming the field followed
//! by its value lines, with a blank line before the next header.
use crate::text::{
    chars_of, join_lines, join_with_newlines, lines_of, parse_u64, parse_usize, parsed_u64,
    parsed_usize, split_lines, str_views, string_views, text_equals,
};
use crate::work::{ImageDimensions, Work, WorkModel};
use vstd::prelude::*;

verus! {

/// A field that the sidecar file may hold.
#[derive(Clone, Copy, Debug, PartialEq, Eq, Structural)]
pub enum MetadataField {
    Id,
    Url,
    Original,
    Thumbnail,
    XRestrict,
    Ai,
    User,
    UserId,
    Title,
    Description,
    Tags,
    Size,
    Bookmark,
    Date,
}

/// The field that a header line names, if it names one.
pub open spec fn named_field(line: Seq<char>) -> Option<MetadataField> {
    if line == "ID"@ {
        Some(MetadataField::Id)
    } else if line == "URL"@ {
        Some(MetadataField::Url)
    } else if line == "Original"@ {
        Some(MetadataField::Original)
    } else if line == "Thumbnail"@ {
        Some(MetadataField::Thumbnail)
    } else if line == "xRestrict"@ {
        Some(MetadataField::XRestrict)
    } else if line == "AI"@ {
        Some(MetadataField::Ai)
    } else if line == "User"@ {
        Some(MetadataField::User)
    } else if line == "UserID"@ {
        Some(MetadataField::UserId)
    } else if line == "Title"@ {
        Some(MetadataField::Title)
    } else if line == "Description"@ {
        Some(MetadataField::Description)
    } else if line == "Tags"@ {
        Some(MetadataField::Tags)
    } else if line == "Size"@ {
        Some(MetadataField::Size)
    } else if line == "Bookmark"@ {
        Some(MetadataField::Bookmark)
    } else if line == "Date"@ {
        Some(MetadataField::Date)
    } else {
        None
    }
}

/// The first value line of a field.
pub open spec fn first_line(data: Seq<Seq<char>>) -> Option<Seq<char>> {
    if data.len() > 0 {
        Some(data[0])
    } else {
        None
    }
}

/// The first value line read as a `u64`.
pub open spec fn first_u64(data: Seq<Seq<char>>) -> Option<u64> {
    if data.len() > 0 {
        parsed_u64(data[0])
    } else {
        None
    }
}

/// The value lines without the last, which is the blank line that ends the field.
pub open spec fn all_but_last(data: Seq<Seq<char>>) -> Seq<Seq<char>> {
    if data.len() > 0 {
        data.drop_last()
    } else {
        data
    }
}

/// The age restriction that a value names.
pub open spec fn age_restriction_of(value: Seq<char>) -> Option<Seq<char>> {
    if value == "AllAges"@ {
        Some("all-ages"@)
    } else if value == "R-18"@ {
        Some("r-18"@)
    } else if value == "R-18G"@ {
        Some("r-18g"@)
    } else {
        None
    }
}

/// Whether a value says that the work was made with AI.
pub open spec fn ai_of(value: Seq<char>) -> Option<bool> {
    if value == "Yes"@ {
        Some(true)
    } else if value == "No"@ {
        Some(false)
    } else {
        None
    }
}

/// The tags of the tag lines: each non-empty line without its first character, its marker.
pub open spec fn tags_of(lines: Seq<Seq<char>>) -> Seq<Seq<char>>
    decreases lines.len(),
{
    if lines.len() == 0 {
        Seq::empty()
    } else {
        let rest = tags_of(lines.drop_last());
        if lines.last().len() > 0 {
            rest.push(lines.last().drop_first())
        } else {
            rest
        }
    }
}

/// Whether `s` holds the separator ` x ` at position `i`.
pub open spec fn separator_at(s: Seq<char>, i: int) -> bool {
    0 <= i && i + 3 <= s.len() && s[i] == ' ' && s[i + 1] == 'x' && s[i + 2] == ' '
}

/// The position of the first separator ` x ` in `s` at or after `from`.
pub open spec fn separator_from(s: Seq<char>, from: int) -> Option<int>
    decreases s.len() - from,
{
    if from < 0 || from + 3 > s.len() {
        None
    } else if separator_at(s, from) {
        Some(from)
    } else {
        separator_from(s, from + 1)
    }
}

/// The size that a value `<width> x <height>` gives, where both sides are unsigned numbers.
pub open spec fn size_of(value: Seq<char>) -> Option<ImageDimensions> {
    match separator_from(value, 0) {
        Some(i) => match (
            parsed_usize(value.subrange(0, i)),
            parsed_usize(value.subrange(i + 3, value.len() as int)),
        ) {
            (Some(width), Some(height)) => Some(ImageDimensions { width, height }),
            _ => None,
        },
        None => None,
    }
}

/// The work after one field with the given value lines: numbers and enumerated values that do not
/// read are left unset, a title or user name without a value keeps the one from the path, and a
/// size that does not read keeps the size there was.
pub open spec fn apply_field(w: WorkModel, field: MetadataField, data: Seq<Seq<char>>) -> WorkModel {
    match field {
        MetadataField::Id => WorkModel { id: first_u64(data), ..w },
        MetadataField::Url => WorkModel { url: first_line(data), ..w },
        MetadataField::Original => WorkModel { image_url: first_line(data), ..w },
        MetadataField::Thumbnail => WorkModel { thumbnail_url: first_line(data), ..w },
        MetadataField::XRestrict => WorkModel {
            age_restriction: match first_line(data) {
                Some(value) => age_restriction_of(value),
                None => None,
            },
            ..w
        },
        MetadataField::Ai => WorkModel {
            ai: match first_line(data) {
                Some(value) => ai_of(value),
                None => None,
            },
            ..w
        },
        MetadataField::User => match first_line(data) {
            Some(value) => WorkModel { user_name: value, ..w },
            None => w,
        },
        MetadataField::UserId => WorkModel { user_id: first_u64(data), ..w },
        MetadataField::Title => match first_line(data) {
            Some(value) => WorkModel { title: value, ..w },
            None => w,
        },
        MetadataField::Description => WorkModel {
            description: Some(join_lines(all_but_last(data))),
            ..w
        },
        MetadataField::Tags => WorkModel { tags: Some(tags_of(all_but_last(data))), ..w },
        MetadataField::Size => match first_line(data) {
            Some(value) => match size_of(value) {
                Some(d) => WorkModel { dimensions: Some(d), ..w },
                None => w,
            },
            None => w,
        },
        MetadataField::Bookmark => WorkModel { bookmarks: first_u64(data), ..w },
        MetadataField::Date => WorkModel { upload_time: first_line(data), ..w },
    }
}

/// Where the reading of a sidecar file stands: the field open, its value lines so far, and the
/// work with the fields before it applied.
pub struct ParserModel {
    pub open: Option<MetadataField>,
    pub buffer: Seq<Seq<char>>,
    pub work: WorkModel,
}

/// Whether a line starts a field: it names one, and comes first or after a blank line.
pub open spec fn is_header(line: Seq<char>, buffer: Seq<Seq<char>>) -> bool {
    named_field(line) is Some && (buffer.len() == 0 || buffer.last().len() == 0)
}

/// The work with the open field, if any, applied.
pub open spec fn close_field(st: ParserModel) -> WorkModel {
    match st.open {
        Some(f) => apply_field(st.work, f, st.buffer),
        None => st.work,
    }
}

/// One line read: a header closes the open field and opens its own; another line is a value of the
/// open field, or is dropped where no field is open.
pub open spec fn parse_step(st: ParserModel, line: Seq<char>) -> ParserModel {
    if is_header(line, st.buffer) {
        ParserModel { open: named_field(line), buffer: Seq::empty(), work: close_field(st) }
    } else if st.open is Some {
        ParserModel { buffer: st.buffer.push(line), ..st }
    } else {
        st
    }
}

pub open spec fn parse_lines(st: ParserModel, lines: Seq<Seq<char>>) -> ParserModel
    decreases lines.len(),
{
    if lines.len() == 0 {
        st
    } else {
        parse_step(parse_lines(st, lines.drop_last()), lines.last())
    }
}

/// The work after every field of the sidecar text has been applied to it, in order.
pub open spec fn metadata_applied(w: WorkModel, text: Seq<char>) -> WorkModel {
    close_field(
        parse_lines(ParserModel { open: None, buffer: Seq::empty(), work: w }, lines_of(text)),
    )
}

/// The field that a line names, if it names one.
pub fn field_from_name(name: &str) -> (r: Option<MetadataField>)
    ensures
        r == named_field(name@),
{
    if text_equals(name, "ID") {
        Some(MetadataField::Id)
    } else if text_equals(name, "URL") {
        Some(MetadataField::Url)
    } else if text_equals(name, "Original") {
        Some(MetadataField::Original)
    } else if text_equals(name, "Thumbnail") {
        Some(MetadataField::Thumbnail)
    } else if text_equals(name, "xRestrict") {
        Some(MetadataField::XRestrict)
    } else if text_equals(name, "AI") {
        Some(MetadataField::Ai)
    } else if text_equals(name, "User") {
        Some(MetadataField::User)
    } else if text_equals(name, "UserID") {
        Some(MetadataField::UserId)
    } else if text_equals(name, "Title") {
        Some(MetadataField::Title)
    } else if text_equals(name, "Description") {
        Some(MetadataField::Description)
    } else if text_equals(name, "Tags") {
        Some(MetadataField::Tags)
    } else if text_equals(name, "Size") {
        Some(MetadataField::Size)
    } else if text_equals(name, "Bookmark") {
        Some(MetadataField::Bookmark)
    } else if text_equals(name, "Date") {
        Some(MetadataField::Date)
    } else {
        None
    }
}

fn first_string(field_data: &Vec<&str>) -> (r: Option<String>)
    ensures
        match r {
            Some(s) => first_line(str_views(field_data@)) == Some(s@),
            None => first_line(str_views(field_data@)) is None,
        },
{
    if field_data.len() > 0 {
        Some(field_data[0].to_string())
    } else {
        None
    }
}

fn first_number(field_data: &Vec<&str>) -> (r: Option<u64>)
    ensures
        r == first_u64(str_views(field_data@)),
{
    if field_data.len() > 0 {
        parse_u64(field_data[0])
    } else {
        None
    }
}

fn age_restriction(value: &str) -> (r: Option<String>)
    ensures
        match r {
            Some(s) => age_restriction_of(value@) == Some(s@),
            None => age_restriction_of(value@) is None,
        },
{
    if text_equals(value, "AllAges") {
        Some("all-ages".to_string())
    } else if text_equals(value, "R-18") {
        Some("r-18".to_string())
    } else if text_equals(value, "R-18G") {
        Some("r-18g".to_string())
    } else {
        None
    }
}

fn ai_flag(value: &str) -> (r: Option<bool>)
    ensures
        r == ai_of(value@),
{
    if text_equals(value, "Yes") {
        Some(true)
    } else if text_equals(value, "No") {
        Some(false)
    } else {
        None
    }
}

/// The tags of the first `count` value lines.
fn tag_list(field_data: &Vec<&str>, count: usize) -> (r: Vec<String>)
    requires
        count <= field_data.len(),
    ensures
        string_views(r@) == tags_of(str_views(field_data@.take(count as int))),
{
    let mut tags: Vec<String> = Vec::new();
    let mut i: usize = 0;
    while i < count
        invariant
            i <= count <= field_data.len(),
            string_views(tags@) == tags_of(str_views(field_data@.take(i as int))),
        decreases count - i,
    {
        let ghost before = field_data@.take(i as int);
        assert(field_data@.take(i + 1) == before.push(field_data@[i as int]));
        assert(str_views(field_data@.take(i + 1)).drop_last() == str_views(before));
        let line = field_data[i];
        let n = chars_of(line).len();
        if n > 0 {
            let tag = line.substring_char(1, n).to_string();
            tags.push(tag);
            assert(string_views(tags@) == string_views(tags@.drop_last()).push(tag@));
        }
        i += 1;
    }
    tags
}

/// The size that a value `<width> x <height>` gives, where both sides are unsigned numbers.
pub fn parse_size(value: &str) -> (r: Option<ImageDimensions>)
    ensures
        r == size_of(value@),
{
    let chars = chars_of(value);
    let n = chars.len();
    let mut i: usize = 0;
    while n >= 3 && i <= n - 3
        invariant
            i <= n,
            chars@ == value@,
            n == chars.len(),
            separator_from(value@, 0) == separator_from(value@, i as int),
        decreases n - i,
    {
        if chars[i] == ' ' && chars[i + 1] == 'x' && chars[i + 2] == ' ' {
            let width = parse_usize(value.substring_char(0, i));
            let height = parse_usize(value.substring_char(i + 3, n));
            return match (width, height) {
                (Some(width), Some(height)) => Some(ImageDimensions { width, height }),
                _ => None,
            };
        }
        i += 1;
    }
    None
}

/// Applies one field with its value lines to the work.
pub fn parse_field(field: MetadataField, field_data: &Vec<&str>, work: &mut Work)
    ensures
        final(work)@ == apply_field(old(work)@, field, str_views(field_data@)),
{
    let ghost data = str_views(field_data@);
    let count: usize = if field_data.len() > 0 {
        field_data.len() - 1
    } else {
        0
    };
    assert(field_data@.take(count as int).map_values(|l: &str| l@) == all_but_last(data));
    match field {
        MetadataField::Id => {
            work.id = first_number(field_data);
        },
        MetadataField::Url => {
            work.url = first_string(field_data);
        },
        MetadataField::Original => {
            work.image_url = first_string(field_data);
        },
        MetadataField::Thumbnail => {
            work.thumbnail_url = first_string(field_data);
        },
        MetadataField::XRestrict => {
            work.age_restriction = if field_data.len() > 0 {
                age_restriction(field_data[0])
            } else {
                None
            };
        },
        MetadataField::Ai => {
            work.ai = if field_data.len() > 0 {
                ai_flag(field_data[0])
            } else {
                None
            };
        },
        MetadataField::User => {
            if field_data.len() > 0 {
                work.user_name = field_data[0].to_string();
            }
        },
        MetadataField::UserId => {
            work.user_id = first_number(field_data);
        },
        MetadataField::Title => {
            if field_data.len() > 0 {
                work.title = field_data[0].to_string();
            }
        },
        MetadataField::Description => {
            work.description = Some(join_with_newlines(field_data, count));
        },
        MetadataField::Tags => {
            work.tags = Some(tag_list(field_data, count));
        },
        MetadataField::Size => {
            if field_data.len() > 0 {
                if let Some(d) = parse_size(field_data[0]) {
                    work.dimensions = Some(d);
                }
            }
        },
        MetadataField::Bookmark => {
            work.bookmarks = first_number(field_data);
        },
        MetadataField::Date => {
            work.upload_time = first_string(field_data);
        },
    }
}

/// Applies the field that `field_name` names, if it names one, with its value lines to the work.
pub fn parse_metafile_field(field_name: &str, field_data: &Vec<&str>, work: &mut Work)
    ensures
        final(work)@ == match named_field(field_name@) {
            Some(f) => apply_field(old(work)@, f, str_views(field_data@)),
            None => old(work)@,
        },
{
    if let Some(field) = field_from_name(field_name) {
        parse_field(field, field_data, work);
    }
}

/// Applies every field of the sidecar text `raw_metadata` to the work, in order.
pub fn add_metadata_from_metafile(raw_metadata: &str, work: &mut Work)
    ensures
        final(work)@ == metadata_applied(old(work)@, raw_metadata@),
{
    let lines = split_lines(raw_metadata);
    let ghost all = lines_of(raw_metadata@);
    let ghost start = ParserModel { open: None, buffer: Seq::empty(), work: work@ };
    let mut field_data: Vec<&str> = Vec::new();
    let mut field: Option<MetadataField> = None;
    let mut i: usize = 0;
    assert(str_views(field_data@) =~= Seq::<Seq<char>>::empty());
    assert(all.take(0) =~= Seq::<Seq<char>>::empty());
    while i < lines.len()
        invariant
            i <= lines.len(),
            str_views(lines@) == all,
            (ParserModel { open: field, buffer: str_views(field_data@), work: work@ }) == parse_lines(
                start,
                all.take(i as int),
            ),
        decreases lines.len() - i,
    {
        let line = lines[i];
        assert(all.take(i + 1).drop_last() == all.take(i as int));
        assert(all.take(i + 1).last() == line@);
        let ghost st = ParserModel { open: field, buffer: str_views(field_data@), work: work@ };
        let named = field_from_name(line);
        let after_blank = field_data.len() == 0 || field_data[field_data.len() - 1].is_empty();
        assert(field_data.len() > 0 ==> st.buffer.last() == field_data@[field_data.len() - 1]@);
        assert(after_blank == (st.buffer.len() == 0 || st.buffer.last().len() == 0));
        if named.is_some() && after_blank {
            if let Some(f) = field {
                parse_field(f, &field_data, work);
            }
            field_data.clear();
            field = named;
            assert(str_views(field_data@) =~= Seq::<Seq<char>>::empty());
        } else if field.is_some() {
            field_data.push(line);
            assert(str_views(field_data@) == st.buffer.push(line@));
        }
        assert((ParserModel { open: field, buffer: str_views(field_data@), work: work@ })
            == parse_step(st, line@));
        i += 1;
    }
    assert(all.take(lines.len() as int) == all);
    if let Some(f) = field {
        parse_field(f, &field_data, work);
    }
}

} // verus!
