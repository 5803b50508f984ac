use vstd::prelude::*;

use crate::report::{field_line, fields_text, records_view, render_fields, FieldView};

verus! {

/// Whether a field name is the reserved name `"message"`, whose value is
/// the event's primary message rather than an ordinary field.
pub open spec fn is_message_name(name: Seq<char>) -> bool {
    name == "message"@
}

/// The message of a sequence of visited fields: the value of the last field
/// named `"message"`, if any.
pub open spec fn message_of(visits: Seq<FieldView>) -> Option<Seq<char>>
    decreases visits.len(),
{
    if visits.len() == 0 {
        None
    } else if is_message_name(visits.last().0) {
        Some(visits.last().1)
    } else {
        message_of(visits.drop_last())
    }
}

/// The visited fields other than those named `"message"`, in visiting order.
pub open spec fn other_fields(visits: Seq<FieldView>) -> Seq<FieldView>
    decreases visits.len(),
{
    if visits.len() == 0 {
        Seq::empty()
    } else if is_message_name(visits.last().0) {
        other_fields(visits.drop_last())
    } else {
        other_fields(visits.drop_last()).push(visits.last())
    }
}

/// The fields of a report are exactly the visited fields not named
/// `"message"`, kept in visiting order; visiting one more field either leaves
/// the fields section as it was (a message) or adds that field's line at its
/// end.
pub proof fn fields_keep_visiting_order(visits: Seq<FieldView>, next: FieldView)
    ensures
        other_fields(visits) == visits.filter(|f: FieldView| !is_message_name(f.0)),
        is_message_name(next.0) ==> fields_text(other_fields(visits.push(next))) == fields_text(
            other_fields(visits),
        ),
        !is_message_name(next.0) ==> fields_text(other_fields(visits.push(next))) == fields_text(
            other_fields(visits),
        ) + field_line(next.0, next.1),
    decreases visits.len(),
{
    reveal(Seq::filter);
    assert(visits.push(next).drop_last() =~= visits);
    assert(other_fields(visits).push(next).drop_last() =~= other_fields(visits));
    if visits.len() > 0 {
        fields_keep_visiting_order(visits.drop_last(), next);
    }
}

/// What a visit of an event's fields has gathered so far: the message and
/// the other fields, each value already rendered to text.
pub struct MessageCapture {
    message: Option<String>,
    fields: Vec<(String, String)>,
}

impl View for MessageCapture {
    type V = (Option<Seq<char>>, Seq<FieldView>);

    closed spec fn view(&self) -> Self::V {
        (
            match self.message {
                Some(m) => Some(m@),
                None => None,
            },
            records_view(self.fields@),
        )
    }
}

impl Default for MessageCapture {
    fn default() -> (r: Self)
        ensures
            r@ == (None::<Seq<char>>, Seq::<FieldView>::empty()),
    {
        MessageCapture::new()
    }
}

impl MessageCapture {
    /// A capture that has seen no field yet.
    pub fn new() -> (r: Self)
        ensures
            r@ == (None::<Seq<char>>, Seq::<FieldView>::empty()),
    {
        let r = MessageCapture { message: None, fields: Vec::new() };
        assert(r@.1 =~= Seq::<FieldView>::empty());
        r
    }

    /// Records one visited field with its rendered value. A field named
    /// `"message"` replaces the message; any other field is appended to the
    /// field list.
    pub fn record_field(&mut self, name: &str, value: String)
        ensures
            is_message_name(name@) ==> final(self)@ == (Some(value@), old(self)@.1),
            !is_message_name(name@) ==> final(self)@ == (old(self)@.0, old(self)@.1.push(
                (name@, value@),
            )),
    {
        let key = String::from_str("message");
        let owned = String::from_str(name);
        if owned.eq(&key) {
            self.message = Some(value);
        } else {
            let ghost before = self.fields@;
            self.fields.push((owned, value));
            assert(records_view(self.fields@) =~= records_view(before).push((name@, value@)));
        }
    }

    /// The capture of a whole visit: each field recorded in turn.
    pub fn from_visits(visits: &Vec<(String, String)>) -> (r: Self)
        ensures
            r@ == (message_of(records_view(visits@)), other_fields(records_view(visits@))),
    {
        let mut capture = MessageCapture::new();
        let mut i: usize = 0;
        while i < visits.len()
            invariant
                i <= visits@.len(),
                capture@ == (
                    message_of(records_view(visits@.subrange(0, i as int))),
                    other_fields(records_view(visits@.subrange(0, i as int))),
                ),
            decreases visits@.len() - i,
        {
            proof {
                let prev = records_view(visits@.subrange(0, i as int));
                let next = records_view(visits@.subrange(0, i + 1));
                assert(next.drop_last() =~= prev);
                assert(next.last() == (visits@[i as int].0@, visits@[i as int].1@));
            }
            capture.record_field(visits[i].0.as_str(), visits[i].1.clone());
            i = i + 1;
        }
        assert(visits@.subrange(0, visits@.len() as int) =~= visits@);
        capture
    }

    /// The message recorded so far, if any.
    pub fn message(&self) -> (r: &Option<String>)
        ensures
            r.is_some() == self@.0.is_some(),
            r.is_some() ==> r.unwrap()@ == self@.0.unwrap(),
    {
        &self.message
    }

    /// The fields other than the message, in the order they were recorded.
    pub fn fields(&self) -> (r: &Vec<(String, String)>)
        ensures
            records_view(r@) == self@.1,
    {
        &self.fields
    }

    /// The fields section of a report: one line `name = value` per field,
    /// each after a newline, in the order they were recorded.
    pub fn get_fields(&self) -> (r: String)
        ensures
            r@ == fields_text(self@.1),
    {
        render_fields(&self.fields)
    }
}

} // verus!
