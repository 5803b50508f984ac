use vstd::prelude::*;

verus! {

/// A field record as text: its name and its rendered value.
pub type FieldView = (Seq<char>, Seq<char>);

/// The text view of a list of field records.
pub open spec fn records_view(fields: Seq<(String, String)>) -> Seq<FieldView> {
    fields.map_values(|f: (String, String)| (f.0@, f.1@))
}

/// One field record in the fields section: a newline, then `name = value`.
pub open spec fn field_line(name: Seq<char>, value: Seq<char>) -> Seq<char> {
    "\n"@ + name + " = "@ + value
}

/// The fields section: the line of each record, in order.
pub open spec fn fields_text(fields: Seq<FieldView>) -> Seq<char>
    decreases fields.len(),
{
    if fields.len() == 0 {
        Seq::empty()
    } else {
        fields_text(fields.drop_last()) + field_line(fields.last().0, fields.last().1)
    }
}

/// The text that comes before the fields section.
pub open spec fn report_head(target: Seq<char>, message: Seq<char>) -> Seq<char> {
    "\n--------\ntarget: "@ + target + "\n--------\nmessage: "@ + message
        + "\n--------\nfields\n"@
}

/// The full report of an event: target, message and fields sections.
pub open spec fn report_text(target: Seq<char>, message: Seq<char>, fields: Seq<FieldView>) -> Seq<
    char,
> {
    report_head(target, message) + fields_text(fields) + "\n"@
}

/// Whether `part` occurs in `text` as a contiguous run of characters.
pub open spec fn has_segment(text: Seq<char>, part: Seq<char>) -> bool {
    exists|i: int|
        0 <= i && i + part.len() <= text.len() && #[trigger] text.subrange(i, i + part.len())
            == part
}

proof fn segment_of_itself(part: Seq<char>)
    ensures
        has_segment(part, part),
{
    assert(part.subrange(0, 0int + part.len()) =~= part);
}

proof fn segment_in_front(a: Seq<char>, b: Seq<char>, part: Seq<char>)
    requires
        has_segment(a, part),
    ensures
        has_segment(a + b, part),
{
    let i = choose|i: int|
        0 <= i && i + part.len() <= a.len() && #[trigger] a.subrange(i, i + part.len()) == part;
    assert((a + b).subrange(i, i + part.len()) =~= a.subrange(i, i + part.len()));
}

proof fn segment_behind(a: Seq<char>, b: Seq<char>, part: Seq<char>)
    requires
        has_segment(b, part),
    ensures
        has_segment(a + b, part),
{
    let i = choose|i: int|
        0 <= i && i + part.len() <= b.len() && #[trigger] b.subrange(i, i + part.len()) == part;
    let j = a.len() + i;
    assert((a + b).subrange(j, j + part.len()) =~= b.subrange(i, i + part.len()));
}

proof fn fields_text_has_line(fields: Seq<FieldView>, i: int)
    requires
        0 <= i < fields.len(),
    ensures
        has_segment(fields_text(fields), field_line(fields[i].0, fields[i].1)),
    decreases fields.len(),
{
    let line = field_line(fields[i].0, fields[i].1);
    let rest = fields_text(fields.drop_last());
    if i == fields.len() - 1 {
        segment_of_itself(line);
        segment_behind(rest, line, line);
    } else {
        fields_text_has_line(fields.drop_last(), i);
        segment_in_front(rest, field_line(fields.last().0, fields.last().1), line);
    }
}

/// A report holds the event's target, its message, and the line
/// `name = value` of every other field.
pub proof fn report_mentions_every_part(
    target: Seq<char>,
    message: Seq<char>,
    fields: Seq<FieldView>,
)
    ensures
        has_segment(report_text(target, message, fields), target),
        has_segment(report_text(target, message, fields), message),
        forall|i: int|
            0 <= i < fields.len() ==> has_segment(
                report_text(target, message, fields),
                #[trigger] field_line(fields[i].0, fields[i].1),
            ),
{
    let a = "\n--------\ntarget: "@;
    let b = "\n--------\nmessage: "@;
    let c = "\n--------\nfields\n"@;
    let body = fields_text(fields);
    let nl = "\n"@;
    segment_of_itself(target);
    segment_behind(a, target, target);
    segment_in_front(a + target, b, target);
    segment_in_front(a + target + b, message, target);
    segment_in_front(a + target + b + message, c, target);
    segment_in_front(a + target + b + message + c, body, target);
    segment_in_front(a + target + b + message + c + body, nl, target);
    segment_of_itself(message);
    segment_behind(a + target + b, message, message);
    segment_in_front(a + target + b + message, c, message);
    segment_in_front(a + target + b + message + c, body, message);
    segment_in_front(a + target + b + message + c + body, nl, message);
    assert forall|i: int| 0 <= i < fields.len() implies has_segment(
        report_text(target, message, fields),
        #[trigger] field_line(fields[i].0, fields[i].1),
    ) by {
        let line = field_line(fields[i].0, fields[i].1);
        fields_text_has_line(fields, i);
        segment_behind(a + target + b + message + c, body, line);
        segment_in_front(a + target + b + message + c + body, nl, line);
    }
}

/// Rendering a report depends on its target, message and fields alone:
/// equal inputs give the same text.
pub proof fn report_is_deterministic(
    target1: Seq<char>,
    message1: Seq<char>,
    fields1: Seq<FieldView>,
    target2: Seq<char>,
    message2: Seq<char>,
    fields2: Seq<FieldView>,
)
    requires
        target1 == target2,
        message1 == message2,
        fields1 == fields2,
    ensures
        report_text(target1, message1, fields1) == report_text(target2, message2, fields2),
{
}

/// Renders one field record as its line of the fields section.
pub fn render_field_line(name: &str, value: &str) -> (r: String)
    ensures
        r@ == field_line(name@, value@),
{
    let mut line = String::from_str("\n");
    line.append(name);
    line.append(" = ");
    line.append(value);
    line
}

/// Renders the fields section of a report: one line per record, in order.
pub fn render_fields(fields: &Vec<(String, String)>) -> (r: String)
    ensures
        r@ == fields_text(records_view(fields@)),
{
    let mut acc = String::new();
    let mut i: usize = 0;
    while i < fields.len()
        invariant
            i <= fields@.len(),
            acc@ == fields_text(records_view(fields@.subrange(0, i as int))),
        decreases fields@.len() - i,
    {
        let line = render_field_line(fields[i].0.as_str(), fields[i].1.as_str());
        proof {
            let prev = records_view(fields@.subrange(0, i as int));
            let next = records_view(fields@.subrange(0, i + 1));
            assert(next.drop_last() =~= prev);
            assert(next.last() == (fields@[i as int].0@, fields@[i as int].1@));
        }
        acc.append(line.as_str());
        i = i + 1;
    }
    assert(fields@.subrange(0, fields@.len() as int) =~= fields@);
    acc
}

/// Renders the report of an event from its target, its message and its
/// other fields.
pub fn render_report(target: &str, message: &str, fields: &Vec<(String, String)>) -> (r: String)
    ensures
        r@ == report_text(target@, message@, records_view(fields@)),
{
    let mut report = String::from_str("\n--------\ntarget: ");
    report.append(target);
    report.append("\n--------\nmessage: ");
    report.append(message);
    report.append("\n--------\nfields\n");
    let body = render_fields(fields);
    report.append(body.as_str());
    report.append("\n");
    report
}

} // verus!
