//! The lines of a continuous change feed.

use vstd::prelude::*;
use crate::dbtype::change_item::ChangeItem;
use crate::dbtype::change_result::ChangeResult;
use crate::dbtype::document_id::DocumentId;
use crate::dbtype::fields::{required, FieldError};

verus! {

/// A single line that the CouchDB server sends as part of a continuous
/// `/db/_changes` result: a change event, or the end of the feed.
#[derive(Debug, PartialEq)]
pub enum ChangeLine {
    /// One document that has changed.
    Event(ChangeResult),
    /// The end of the feed, with the last sequence number.
    End { last_seq: u64 },
}

/// The names of the fields of a change line, as its JSON object holds them.
pub const CHANGE_LINE_FIELDS: [&'static str; 5] = ["changes", "deleted", "id", "last_seq", "seq"];

/// Which of its two kinds a change line is.
#[derive(Clone, Copy, Debug, Eq, PartialEq, Structural)]
pub enum ChangeLineKind {
    /// A change event: `changes`, `deleted`, `id`, `seq`.
    Event,
    /// The end of the feed: `last_seq`.
    End,
}

/// The name of the field at a position of `CHANGE_LINE_FIELDS`.
pub open spec fn change_line_field_name(field: int) -> &'static str {
    if field == 0 {
        "changes"
    } else if field == 1 {
        "deleted"
    } else if field == 2 {
        "id"
    } else if field == 3 {
        "last_seq"
    } else {
        "seq"
    }
}

/// The kind of line that a field belongs to: `last_seq` to the end, every
/// other field to an event.
pub open spec fn kind_of_field(field: int) -> ChangeLineKind {
    if field == 3 {
        ChangeLineKind::End
    } else {
        ChangeLineKind::Event
    }
}

/// The kind of the line after one more field was read: the first field
/// decides it, and a field of the other kind is refused.
pub open spec fn change_line_step_spec(kind: Option<ChangeLineKind>, field: int) -> Result<
    Option<ChangeLineKind>,
    FieldError,
> {
    match kind {
        None => Ok(Some(kind_of_field(field))),
        Some(k) => if k == kind_of_field(field) {
            Ok(Some(k))
        } else {
            Err(FieldError::UnknownField(change_line_field_name(field)))
        },
    }
}

/// The kind of a line whose fields came in the given order, or the error for
/// the first field that did not fit.
pub open spec fn change_line_kind(fields: Seq<int>) -> Result<Option<ChangeLineKind>, FieldError>
    decreases fields.len(),
{
    if fields.len() == 0 {
        Ok(None)
    } else {
        match change_line_kind(fields.drop_last()) {
            Ok(k) => change_line_step_spec(k, fields.last()),
            Err(e) => Err(e),
        }
    }
}

/// Reads one more field of a change line: `field` is its position in
/// `CHANGE_LINE_FIELDS`.
pub fn change_line_step(kind: Option<ChangeLineKind>, field: usize) -> (r: Result<
    Option<ChangeLineKind>,
    FieldError,
>)
    requires
        field < 5,
    ensures
        r == change_line_step_spec(kind, field as int),
{
    let k = if field == 3 {
        ChangeLineKind::End
    } else {
        ChangeLineKind::Event
    };
    match kind {
        None => Ok(Some(k)),
        Some(c) => {
            if c == k {
                Ok(Some(k))
            } else {
                Err(FieldError::UnknownField(CHANGE_LINE_FIELDS[field]))
            }
        },
    }
}

/// Whether every field is `last_seq`.
pub open spec fn all_end_fields(fields: Seq<int>) -> bool {
    forall|i: int| 0 <= i < fields.len() ==> #[trigger] fields[i] == 3
}

/// Whether no field is `last_seq`.
pub open spec fn all_event_fields(fields: Seq<int>) -> bool {
    forall|i: int| 0 <= i < fields.len() ==> #[trigger] fields[i] != 3
}

/// A change line is either an end, all of whose fields are `last_seq`, or an
/// event, none of whose fields is; its fields are accepted exactly when they
/// are all of one kind.
pub proof fn law_change_line_kind(fields: Seq<int>)
    ensures
        fields.len() == 0 ==> change_line_kind(fields) == Ok::<
            Option<ChangeLineKind>,
            FieldError,
        >(None),
        fields.len() > 0 && all_end_fields(fields) ==> change_line_kind(fields) == Ok::<
            Option<ChangeLineKind>,
            FieldError,
        >(Some(ChangeLineKind::End)),
        fields.len() > 0 && all_event_fields(fields) ==> change_line_kind(fields) == Ok::<
            Option<ChangeLineKind>,
            FieldError,
        >(Some(ChangeLineKind::Event)),
        !all_end_fields(fields) && !all_event_fields(fields) ==> change_line_kind(fields) is Err,
    decreases fields.len(),
{
    if fields.len() > 0 {
        let init = fields.drop_last();
        let last = fields.last();
        law_change_line_kind(init);
        assert forall|i: int| 0 <= i < init.len() implies #[trigger] init[i] == fields[i] by {}
        if all_end_fields(fields) {
            assert(all_end_fields(init));
            assert(last == 3);
        } else if all_event_fields(fields) {
            assert(all_event_fields(init));
            assert(last != 3);
        } else {
            if init.len() == 0 {
                if last == 3 {
                    assert(all_end_fields(fields));
                } else {
                    assert(all_event_fields(fields));
                }
            } else if all_end_fields(init) {
                if last == 3 {
                    assert forall|i: int| 0 <= i < fields.len() implies #[trigger] fields[i] == 3 by {
                        if i < init.len() {
                            assert(init[i] == fields[i]);
                        }
                    }
                }
            } else if all_event_fields(init) {
                if last != 3 {
                    assert forall|i: int| 0 <= i < fields.len() implies #[trigger] fields[i] != 3 by {
                        if i < init.len() {
                            assert(init[i] == fields[i]);
                        }
                    }
                }
            }
        }
    }
}

/// Where the fields of a line first mix the two kinds, the line is refused
/// with an unknown-field error that names the first field whose kind differs
/// from that of the first field.
pub proof fn law_change_line_first_stray_field(fields: Seq<int>, j: int)
    requires
        0 < j < fields.len(),
        kind_of_field(fields[j]) != kind_of_field(fields[0]),
        forall|i: int| 0 <= i < j ==> kind_of_field(#[trigger] fields[i]) == kind_of_field(fields[0]),
    ensures
        change_line_kind(fields) == Err::<Option<ChangeLineKind>, FieldError>(
            FieldError::UnknownField(change_line_field_name(fields[j])),
        ),
    decreases fields.len(),
{
    let init = fields.drop_last();
    assert forall|i: int| 0 <= i < init.len() implies #[trigger] init[i] == fields[i] by {}
    if j == fields.len() - 1 {
        law_change_line_kind(init);
        if kind_of_field(fields[0]) == ChangeLineKind::End {
            assert forall|i: int| 0 <= i < init.len() implies #[trigger] init[i] == 3 by {
                assert(kind_of_field(fields[i]) == ChangeLineKind::End);
            }
            assert(all_end_fields(init));
        } else {
            assert forall|i: int| 0 <= i < init.len() implies #[trigger] init[i] != 3 by {
                assert(kind_of_field(fields[i]) == ChangeLineKind::Event);
            }
            assert(all_event_fields(init));
        }
        assert(fields.last() == fields[j]);
    } else {
        assert(init[j] == fields[j]);
        assert(init[0] == fields[0]);
        assert forall|i: int| 0 <= i < j implies kind_of_field(#[trigger] init[i]) == kind_of_field(
            init[0],
        ) by {
            assert(init[i] == fields[i]);
        }
        law_change_line_first_stray_field(init, j);
    }
}

/// The positions of a line's keys, as integers.
pub open spec fn field_positions(fields: Seq<usize>) -> Seq<int> {
    fields.map_values(|f: usize| f as int)
}

/// Once the keys read so far are refused, the whole line is refused with the
/// same error.
proof fn lemma_change_line_kind_stays_refused(fields: Seq<usize>, n: int)
    requires
        0 < n <= fields.len(),
        change_line_kind(field_positions(fields.subrange(0, n))) is Err,
    ensures
        change_line_kind(field_positions(fields)) == change_line_kind(
            field_positions(fields.subrange(0, n)),
        ),
    decreases fields.len() - n,
{
    if n < fields.len() {
        let a = field_positions(fields.subrange(0, n));
        let b = field_positions(fields.subrange(0, n + 1));
        assert(b.drop_last() =~= a);
        lemma_change_line_kind_stays_refused(fields, n + 1);
    } else {
        assert(fields.subrange(0, n) =~= fields);
    }
}

/// What reading a change line of the given kind from the given fields gives:
/// a line of no kind held no field and lacks `last_seq`; an event needs `seq`,
/// `id` and `changes`, checked in that order, and `deleted` defaults to
/// `false`; an end needs `last_seq`.
pub open spec fn change_line_read(
    kind: Option<ChangeLineKind>,
    changes: Option<Vec<ChangeItem>>,
    deleted: Option<bool>,
    id: Option<DocumentId>,
    last_seq: Option<u64>,
    seq: Option<u64>,
    r: Result<ChangeLine, FieldError>,
) -> bool {
    &&& kind is None ==> r == Err::<ChangeLine, FieldError>(FieldError::MissingField("last_seq"))
    &&& kind == Some(ChangeLineKind::End) ==> match last_seq {
        None => r == Err::<ChangeLine, FieldError>(FieldError::MissingField("last_seq")),
        Some(n) => r == Ok::<ChangeLine, FieldError>(ChangeLine::End { last_seq: n }),
    }
    &&& kind == Some(ChangeLineKind::Event) ==> {
        if seq is None {
            r == Err::<ChangeLine, FieldError>(FieldError::MissingField("seq"))
        } else if id is None {
            r == Err::<ChangeLine, FieldError>(FieldError::MissingField("id"))
        } else if changes is None {
            r == Err::<ChangeLine, FieldError>(FieldError::MissingField("changes"))
        } else {
            r matches Ok(ChangeLine::Event(c)) && c@ == (
                seq->0,
                id->0,
                changes->0@,
                match deleted {
                    Some(d) => d,
                    None => false,
                },
            )
        }
    }
}

impl ChangeLine {
    /// Assembles a change line from its kind and the fields that its JSON
    /// object held. A line of no kind held no field and lacks `last_seq`; an
    /// event needs `seq`, `id` and `changes`, checked in that order, and
    /// `deleted` defaults to `false`; an end needs `last_seq`.
    pub fn from_fields(
        kind: Option<ChangeLineKind>,
        changes: Option<Vec<ChangeItem>>,
        deleted: Option<bool>,
        id: Option<DocumentId>,
        last_seq: Option<u64>,
        seq: Option<u64>,
    ) -> (r: Result<Self, FieldError>)
        ensures
            change_line_read(kind, changes, deleted, id, last_seq, seq, r),
    {
        match kind {
            None => Err(FieldError::MissingField("last_seq")),
            Some(ChangeLineKind::Event) => {
                let seq = required(seq, "seq")?;
                let id = required(id, "id")?;
                let changes = required(changes, "changes")?;
                let deleted = match deleted {
                    Some(d) => d,
                    None => false,
                };
                Ok(ChangeLine::Event(ChangeResult::new(seq, id, changes, deleted)))
            },
            Some(ChangeLineKind::End) => {
                let last_seq = required(last_seq, "last_seq")?;
                Ok(ChangeLine::End { last_seq })
            },
        }
    }

    /// Reads a change line from its JSON object: `fields` are the positions in
    /// `CHANGE_LINE_FIELDS` of its keys, in the order the object holds them,
    /// and the others are the values it held. The keys decide the kind of the
    /// line, as `change_line_kind` says; then the line is assembled as
    /// `from_fields` does.
    pub fn from_object(
        fields: &[usize],
        changes: Option<Vec<ChangeItem>>,
        deleted: Option<bool>,
        id: Option<DocumentId>,
        last_seq: Option<u64>,
        seq: Option<u64>,
    ) -> (r: Result<Self, FieldError>)
        requires
            forall|i: int| 0 <= i < fields@.len() ==> #[trigger] fields@[i] < 5,
        ensures
            match change_line_kind(field_positions(fields@)) {
                Err(e) => r == Err::<Self, FieldError>(e),
                Ok(k) => change_line_read(k, changes, deleted, id, last_seq, seq, r),
            },
    {
        let mut kind: Option<ChangeLineKind> = None;
        let mut i: usize = 0;
        proof {
            assert(field_positions(fields@.subrange(0, 0)) =~= Seq::<int>::empty());
        }
        while i < fields.len()
            invariant
                0 <= i <= fields.len(),
                forall|j: int| 0 <= j < fields@.len() ==> #[trigger] fields@[j] < 5,
                change_line_kind(field_positions(fields@.subrange(0, i as int))) == Ok::<
                    Option<ChangeLineKind>,
                    FieldError,
                >(kind),
            decreases fields.len() - i,
        {
            let ghost before = field_positions(fields@.subrange(0, i as int));
            let ghost after = field_positions(fields@.subrange(0, i + 1));
            proof {
                assert(after.drop_last() =~= before);
                assert(after.last() == fields@[i as int] as int);
            }
            match change_line_step(kind, fields[i]) {
                Ok(k) => {
                    kind = k;
                },
                Err(e) => {
                    proof {
                        assert(change_line_kind(after) == Err::<Option<ChangeLineKind>, FieldError>(e));
                        lemma_change_line_kind_stays_refused(fields@, i as int + 1);
                    }
                    return Err(e);
                },
            }
            i = i + 1;
        }
        proof {
            assert(fields@.subrange(0, fields@.len() as int) =~= fields@);
        }
        ChangeLine::from_fields(kind, changes, deleted, id, last_seq, seq)
    }
}

} // verus!
