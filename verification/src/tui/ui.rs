//! The lines of text that the front end shows of a resource. How they are
//! laid out and coloured is the front end's business; what they say is
//! decided here.

use crate::domain::image::Image;
use crate::domain::image::ImageView;
use crate::domain::Labels;
use crate::domain::LabelsView;
use crate::text::chars_of;
use crate::text::decimal;
use crate::text::push_chars;
use crate::text::push_decimal;
use vstd::prelude::*;

verus! {

/// How many variables of the environment of a container are shown.
pub const SHOWN_ENV: usize = 10;

/// How many labels of a container are shown.
pub const SHOWN_LABELS: usize = 5;

/// How many characters of an identifier stand for an image without a tag.
pub const SHORT_ID: usize = 12;

/// A line of a list: the text, indented.
pub open spec fn item_line(text: Seq<char>) -> Seq<char> {
    "  "@ + text
}

/// The line that shows one label.
pub open spec fn label_line(label: (Seq<char>, Seq<char>)) -> Seq<char> {
    "  "@ + label.0 + ": "@ + label.1
}

/// The line that stands in for the `hidden` entries that are not shown.
pub open spec fn more_line(hidden: nat) -> Seq<char> {
    "  ... and "@ + decimal(hidden) + " more"@
}

/// The first `limit` of the lines, followed by a line that counts the rest
/// where there are more.
pub open spec fn capped<T>(entries: Seq<T>, limit: nat, line: spec_fn(T) -> Seq<char>) -> Seq<
    Seq<char>,
> {
    if entries.len() > limit {
        entries.take(limit as int).map_values(line).push(more_line((entries.len() - limit) as nat))
    } else {
        entries.map_values(line)
    }
}

/// The name under which an image is listed: its first tag, or `<none>:`
/// and the head of its identifier where it has no tag.
pub open spec fn listed_name(image: ImageView) -> Seq<char> {
    if image.repo_tags.len() > 0 {
        image.repo_tags[0]
    } else if image.id.len() > SHORT_ID {
        "<none>:"@ + image.id.take(SHORT_ID as int)
    } else {
        "<none>:"@ + image.id
    }
}

/// The line that counts the `hidden` entries that are not shown.
fn more_line_for(hidden: usize) -> (line: String)
    ensures
        line@ == more_line(hidden as nat),
{
    let mut line = "  ... and ".to_owned();
    push_decimal(&mut line, hidden as u64);
    line.append(" more");
    line
}

/// The lines that show the environment of a container: the first ten
/// variables, and a count of the others.
pub fn env_lines(env: &Vec<String>) -> (lines: Vec<String>)
    ensures
        lines.deep_view() == capped(
            env.deep_view(),
            SHOWN_ENV as nat,
            |text: Seq<char>| item_line(text),
        ),
{
    let ghost all = env.deep_view();
    let shown = if env.len() > SHOWN_ENV {
        SHOWN_ENV
    } else {
        env.len()
    };
    let mut lines: Vec<String> = Vec::new();
    let mut i: usize = 0;
    while i < shown
        invariant
            i <= shown <= env.len(),
            all == env.deep_view(),
            lines@.len() == i,
            forall|j: int| 0 <= j < i ==> (#[trigger] lines@[j])@ == item_line(all[j]),
        decreases shown - i,
    {
        let mut line = "  ".to_owned();
        line.append(env[i].as_str());
        lines.push(line);
        i += 1;
    }
    if env.len() > SHOWN_ENV {
        lines.push(more_line_for(env.len() - SHOWN_ENV));
    }
    assert(lines.deep_view() =~= capped(all, SHOWN_ENV as nat, |text: Seq<char>| item_line(text)));
    lines
}

/// The line that shows entry `i` of the labels.
fn label_line_at(labels: &Labels, i: usize) -> (line: String)
    requires
        i < labels@.len(),
    ensures
        line@ == label_line(labels@[i as int]),
{
    let entry = labels.entry_at(i).unwrap();
    let mut line = "  ".to_owned();
    line.append(entry.0.as_str());
    line.append(": ");
    line.append(entry.1.as_str());
    line
}

/// The lines that show the labels of a container: the first five in the
/// order of their keys, and a count of the others.
pub fn shown_label_lines(labels: &Labels) -> (lines: Vec<String>)
    ensures
        lines.deep_view() == capped(
            labels@,
            SHOWN_LABELS as nat,
            |label: (Seq<char>, Seq<char>)| label_line(label),
        ),
{
    let count = labels.len();
    let shown = if count > SHOWN_LABELS {
        SHOWN_LABELS
    } else {
        count
    };
    let mut lines: Vec<String> = Vec::new();
    let mut i: usize = 0;
    while i < shown
        invariant
            i <= shown <= count,
            count == labels@.len(),
            lines@.len() == i,
            forall|j: int| 0 <= j < i ==> (#[trigger] lines@[j])@ == label_line(labels@[j]),
        decreases shown - i,
    {
        lines.push(label_line_at(labels, i));
        i += 1;
    }
    if count > SHOWN_LABELS {
        lines.push(more_line_for(count - SHOWN_LABELS));
    }
    assert(lines.deep_view() =~= capped(
        labels@,
        SHOWN_LABELS as nat,
        |label: (Seq<char>, Seq<char>)| label_line(label),
    ));
    lines
}

/// The lines that show all labels of a resource, in the order of their
/// keys.
pub fn label_lines(labels: &Labels) -> (lines: Vec<String>)
    ensures
        lines.deep_view() == labels@.map_values(|label: (Seq<char>, Seq<char>)| label_line(label)),
{
    let count = labels.len();
    let mut lines: Vec<String> = Vec::new();
    let mut i: usize = 0;
    while i < count
        invariant
            i <= count,
            count == labels@.len(),
            lines@.len() == i,
            forall|j: int| 0 <= j < i ==> (#[trigger] lines@[j])@ == label_line(labels@[j]),
        decreases count - i,
    {
        lines.push(label_line_at(labels, i));
        i += 1;
    }
    assert(lines.deep_view() =~= labels@.map_values(
        |label: (Seq<char>, Seq<char>)| label_line(label),
    ));
    lines
}

/// The name under which an image is listed.
pub fn image_list_name(image: &Image) -> (name: String)
    ensures
        name@ == listed_name(image@),
{
    if image.repo_tags.len() > 0 {
        image.repo_tags[0].clone()
    } else {
        let id = chars_of(image.id.as_ref());
        let shown = if id.len() > SHORT_ID {
            SHORT_ID
        } else {
            id.len()
        };
        let mut name = "<none>:".to_owned();
        push_chars(&mut name, &id, 0, shown);
        assert(id@.subrange(0, id@.len() as int) == id@);
        name
    }
}

} // verus!
