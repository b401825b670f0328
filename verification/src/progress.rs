//! The progress endpoint: how a report is read and validated, and the statement
//! that stores it.

use vstd::prelude::*;
use vstd::string::StringExecFns;
use crate::errors::{AppError, AppErrorView};
use crate::json::{
    get_items, get_text, items_member, json_model, JsonModel, member, models_of, signed_of,
    text_member, value_as_i64, value_get,
};
use crate::payload::{join_texts, joined};
use crate::text::{signed_decimal, signed_decimal_string, texts_view};

verus! {

/// The progress of a roadmap as its owner reports it.
#[derive(Debug)]
pub struct ProgressUpdate {
    pub progress_percentage: Option<i32>,
    pub completed_phases: Option<Vec<i32>>,
    pub notes: Option<String>,
}

/// A [`ProgressUpdate`] as the contracts see it.
pub ghost struct ProgressUpdateView {
    pub progress_percentage: Option<i32>,
    pub completed_phases: Option<Seq<i32>>,
    pub notes: Option<Seq<char>>,
}

impl View for ProgressUpdate {
    type V = ProgressUpdateView;

    open spec fn view(&self) -> ProgressUpdateView {
        ProgressUpdateView {
            progress_percentage: self.progress_percentage,
            completed_phases: match self.completed_phases {
                Some(p) => Some(p@),
                None => None,
            },
            notes: match self.notes {
                Some(n) => Some(n@),
                None => None,
            },
        }
    }
}

/// The integer member `progress_percentage` of a payload, cut to 32 bits.
pub open spec fn percentage_of(payload: JsonModel) -> Option<i32> {
    match member(payload, "progress_percentage"@) {
        Some(x) => match signed_of(x) {
            Some(p) => Some(p as i32),
            None => None,
        },
        None => None,
    }
}

/// The integers among the items, each cut to 32 bits, in order.
pub open spec fn phases_of(items: Seq<JsonModel>) -> Seq<i32>
    decreases items.len(),
{
    if items.len() == 0 {
        Seq::<i32>::empty()
    } else {
        match signed_of(items.last()) {
            Some(p) => phases_of(items.drop_last()).push(p as i32),
            None => phases_of(items.drop_last()),
        }
    }
}

/// How a progress payload is read. A percentage below 0 or above 100 is refused;
/// every member may be absent.
pub open spec fn progress_update(payload: JsonModel) -> Result<ProgressUpdateView, AppErrorView> {
    match percentage_of(payload) {
        Some(p) if p < 0 || p > 100 => Err(
            AppErrorView::ValidationError("Progress percentage must be between 0 and 100"@),
        ),
        _ => Ok(
            ProgressUpdateView {
                progress_percentage: percentage_of(payload),
                completed_phases: match items_member(payload, "completed_phases"@) {
                    Some(items) => Some(phases_of(items)),
                    None => None,
                },
                notes: text_member(payload, "notes"@),
            },
        ),
    }
}

/// Collects the integers among the items.
pub fn collect_phases(items: &Vec<serde_json::Value>) -> (phases: Vec<i32>)
    ensures
        phases@ == phases_of(models_of(items@)),
{
    let ghost models = models_of(items@);
    let mut phases: Vec<i32> = Vec::new();
    let mut i: usize = 0;
    assert(phases@ =~= phases_of(models.take(0)));
    while i < items.len()
        invariant
            i <= items.len(),
            models == models_of(items@),
            phases@ == phases_of(models.take(i as int)),
        decreases items.len() - i,
    {
        proof {
            let next = models.take(i + 1);
            assert(next.drop_last() =~= models.take(i as int));
            assert(next.last() == json_model(items@[i as int]));
        }
        match value_as_i64(&items[i]) {
            Some(p) => {
                phases.push(#[verifier::truncate] (p as i32));
            },
            None => {},
        }
        i += 1;
    }
    assert(models.take(i as int) =~= models);
    phases
}

/// Reads the payload of the progress endpoint.
pub fn read_progress_update(payload: &serde_json::Value) -> (r: Result<ProgressUpdate, AppError>)
    ensures
        (match r {
            Ok(u) => progress_update(json_model(*payload)) == Ok::<
                ProgressUpdateView,
                AppErrorView,
            >(u@),
            Err(e) => progress_update(json_model(*payload)) == Err::<
                ProgressUpdateView,
                AppErrorView,
            >(e@),
        }),
{
    let progress_percentage = match value_get(payload, "progress_percentage") {
        Some(x) => match value_as_i64(x) {
            Some(p) => Some(#[verifier::truncate] (p as i32)),
            None => None,
        },
        None => None,
    };
    match progress_percentage {
        Some(p) => {
            if p < 0 || p > 100 {
                return Err(
                    AppError::ValidationError(
                        String::from_str("Progress percentage must be between 0 and 100"),
                    ),
                );
            }
        },
        None => {},
    }
    let completed_phases = match get_items(payload, "completed_phases") {
        Some(items) => Some(collect_phases(items)),
        None => None,
    };
    let notes = match get_text(payload, "notes") {
        Some(n) => Some(String::from_str(n)),
        None => None,
    };
    Ok(ProgressUpdate { progress_percentage, completed_phases, notes })
}

/// Which values a progress statement takes after the roadmap's id and the
/// user's id.
#[derive(Debug, Clone, Copy, PartialEq, Eq, Structural)]
pub enum ProgressValues {
    /// The completed phases, then the notes.
    PhasesAndNotes,
    /// The completed phases.
    Phases,
    /// The notes.
    Notes,
    /// The percentage, or zero where none was reported.
    Percentage,
}

/// The statement that stores a progress update.
#[derive(Debug)]
pub struct ProgressStatement {
    pub query: String,
    pub values: ProgressValues,
}

/// How every statement built from the reported members starts.
pub const PROGRESS_UPDATE_OPENING: &'static str =
    "UPDATE career_roadmaps SET updated_at = CURRENT_TIMESTAMP";

/// How every statement built from the reported members ends.
pub const PROGRESS_UPDATE_CLOSING: &'static str = " WHERE id = $1 AND user_id = $2 RETURNING id";

/// The statement for an update that reports neither phases nor notes.
pub const PERCENTAGE_UPDATE: &'static str =
    "UPDATE career_roadmaps SET progress_percentage = $3, updated_at = CURRENT_TIMESTAMP WHERE id = $1 AND user_id = $2 RETURNING id";

/// The assignments of a statement, one for each member that was reported: the
/// percentage written out, the phases and the notes as placeholders.
pub open spec fn progress_fields(update: ProgressUpdateView) -> Seq<Seq<char>> {
    let percentage = match update.progress_percentage {
        Some(p) => seq![" progress_percentage = "@ + signed_decimal(p as int)],
        None => Seq::<Seq<char>>::empty(),
    };
    let phases = if update.completed_phases is Some {
        seq![" completed_phases = $3"@]
    } else {
        Seq::<Seq<char>>::empty()
    };
    let notes = if update.notes is Some {
        seq![" notes = $4"@]
    } else {
        Seq::<Seq<char>>::empty()
    };
    percentage + phases + notes
}

/// The text of the statement for an update.
pub open spec fn progress_query(update: ProgressUpdateView) -> Seq<char> {
    if update.completed_phases is None && update.notes is None {
        PERCENTAGE_UPDATE@
    } else {
        PROGRESS_UPDATE_OPENING@ + ", "@ + joined(progress_fields(update), ", "@)
            + PROGRESS_UPDATE_CLOSING@
    }
}

/// The values that the statement for an update takes.
pub open spec fn progress_values(update: ProgressUpdateView) -> ProgressValues {
    if update.completed_phases is Some {
        if update.notes is Some {
            ProgressValues::PhasesAndNotes
        } else {
            ProgressValues::Phases
        }
    } else if update.notes is Some {
        ProgressValues::Notes
    } else {
        ProgressValues::Percentage
    }
}

/// Builds the statement that stores a progress update.
pub fn progress_statement(update: &ProgressUpdate) -> (statement: ProgressStatement)
    ensures
        statement.query@ == progress_query(update@),
        statement.values == progress_values(update@),
{
    let has_phases = update.completed_phases.is_some();
    let has_notes = update.notes.is_some();
    if !has_phases && !has_notes {
        return ProgressStatement {
            query: String::from_str(PERCENTAGE_UPDATE),
            values: ProgressValues::Percentage,
        };
    }
    let mut fields: Vec<String> = Vec::new();
    assert(texts_view(fields@) =~= Seq::<Seq<char>>::empty());
    match update.progress_percentage {
        Some(p) => {
            let mut field = String::from_str(" progress_percentage = ");
            let shown = signed_decimal_string(p);
            field.append(shown.as_str());
            fields.push(field);
            assert(texts_view(fields@) =~= seq![
                " progress_percentage = "@ + signed_decimal(p as int),
            ]);
        },
        None => {},
    }
    let ghost after_percentage = texts_view(fields@);
    if has_phases {
        fields.push(String::from_str(" completed_phases = $3"));
        assert(texts_view(fields@) =~= after_percentage + seq![" completed_phases = $3"@]);
    } else {
        assert(texts_view(fields@) =~= after_percentage + Seq::<Seq<char>>::empty());
    }
    let ghost after_phases = texts_view(fields@);
    if has_notes {
        fields.push(String::from_str(" notes = $4"));
        assert(texts_view(fields@) =~= after_phases + seq![" notes = $4"@]);
    } else {
        assert(texts_view(fields@) =~= after_phases + Seq::<Seq<char>>::empty());
    }
    let assignments = join_texts(&fields, ", ");
    let mut query = String::from_str(PROGRESS_UPDATE_OPENING);
    query.append(", ");
    query.append(assignments.as_str());
    query.append(PROGRESS_UPDATE_CLOSING);
    let values = if has_phases {
        if has_notes {
            ProgressValues::PhasesAndNotes
        } else {
            ProgressValues::Phases
        }
    } else {
        ProgressValues::Notes
    };
    ProgressStatement { query, values }
}

} // verus!
