//! Display strings for the fields of a submission. Absent data always has
//! a display: the empty string.

use vstd::prelude::*;
use vstd::string::*;

use crate::models::{CoPI, CoPIView, ProjectDuration, Submission};
use crate::text::{join, join_strings};

verus! {

/// The display of a field that may be absent: its text, or nothing.
pub open spec fn text_or_empty(field: Option<Seq<char>>) -> Seq<char> {
    match field {
        Some(text) => text,
        None => Seq::empty(),
    }
}

/// The display of a field that exists as a list and as free text: the
/// list joined by `"; "` where it holds anything, else the free text, else
/// nothing.
pub open spec fn list_or_text(list: Option<Seq<Seq<char>>>, text: Option<Seq<char>>) -> Seq<char> {
    match list {
        Some(items) if items.len() > 0 => join(items, "; "@),
        _ => text_or_empty(text),
    }
}

/// The display of a list that has no free-text companion: its items joined
/// by `", "`, or nothing where the list is absent.
pub open spec fn comma_list(list: Option<Seq<Seq<char>>>) -> Seq<char> {
    match list {
        Some(items) => join(items, ", "@),
        None => Seq::empty(),
    }
}

/// The length of a project in months: twelve per year, the months, and one
/// for every thirty full days (rounding towards minus infinity).
pub open spec fn months_of(duration: ProjectDuration) -> int {
    duration.years * 12 + duration.months + duration.days / 30
}

/// The length in months of a project whose duration may be absent.
pub open spec fn total_months_of(duration: Option<ProjectDuration>) -> int {
    match duration {
        Some(d) => months_of(d),
        None => 0,
    }
}

pub open spec fn emails_of(people: Seq<CoPIView>) -> Seq<Seq<char>> {
    Seq::new(people.len(), |i: int| people[i].email)
}

pub open spec fn names_of(people: Seq<CoPIView>) -> Seq<Seq<char>> {
    Seq::new(people.len(), |i: int| people[i].name)
}

/// The e-mail addresses of the co-investigators, joined by `", "`.
pub open spec fn co_pi_email_text(people: Option<Seq<CoPIView>>) -> Seq<char> {
    match people {
        Some(list) => join(emails_of(list), ", "@),
        None => Seq::empty(),
    }
}

/// The names of the co-investigators, joined by `", "`.
pub open spec fn co_pi_name_text(people: Option<Seq<CoPIView>>) -> Seq<char> {
    match people {
        Some(list) => join(names_of(list), ", "@),
        None => Seq::empty(),
    }
}

/// The text of `field`, or the empty string where it is absent.
pub fn display_or_empty(field: &Option<String>) -> (s: String)
    ensures
        s@ == text_or_empty(field.deep_view()),
{
    match field {
        Some(text) => text.clone(),
        None => String::new(),
    }
}

/// The display of a list field with a free-text companion.
pub fn format_list_or_text(list: &Option<Vec<String>>, text: &Option<String>) -> (s: String)
    ensures
        s@ == list_or_text(list.deep_view(), text.deep_view()),
{
    match list {
        Some(items) => {
            if items.len() > 0 {
                return join_strings(items, "; ");
            }
        },
        None => {},
    }
    display_or_empty(text)
}

/// The display of a list field without a companion.
pub fn format_comma_list(list: &Option<Vec<String>>) -> (s: String)
    ensures
        s@ == comma_list(list.deep_view()),
{
    match list {
        Some(items) => join_strings(items, ", "),
        None => String::new(),
    }
}

/// The project's objectives.
pub fn format_objectives(submission: &Submission) -> (s: String)
    ensures
        s@ == list_or_text(
            submission.deep_view().project_objective,
            submission.deep_view().project_objective_new,
        ),
{
    format_list_or_text(&submission.project_objective, &submission.project_objective_new)
}

/// The project's references.
pub fn format_references(submission: &Submission) -> (s: String)
    ensures
        s@ == list_or_text(submission.deep_view().references, submission.deep_view().references_new),
{
    format_list_or_text(&submission.references, &submission.references_new)
}

/// The project's schedule of activities.
pub fn format_timeline(submission: &Submission) -> (s: String)
    ensures
        s@ == list_or_text(
            submission.deep_view().project_timeline,
            submission.deep_view().project_timeline_new,
        ),
{
    format_list_or_text(&submission.project_timeline, &submission.project_timeline_new)
}

/// The project's deliverables.
pub fn format_deliverables(submission: &Submission) -> (s: String)
    ensures
        s@ == list_or_text(
            submission.deep_view().project_deliverables,
            submission.deep_view().project_deliverables_new,
        ),
{
    format_list_or_text(&submission.project_deliverables, &submission.project_deliverables_new)
}

/// The experts from outside the two institutions.
pub fn format_experts(submission: &Submission) -> (s: String)
    ensures
        s@ == list_or_text(
            submission.deep_view().outside_tiet_uq_experts,
            submission.deep_view().outside_tiet_uq_experts_new,
        ),
{
    format_list_or_text(
        &submission.outside_tiet_uq_experts,
        &submission.outside_tiet_uq_experts_new,
    )
}

/// The project's keywords, joined by `", "`.
pub fn format_keywords(submission: &Submission) -> (s: String)
    ensures
        s@ == comma_list(submission.deep_view().project_keywords),
{
    format_comma_list(&submission.project_keywords)
}

/// The length of the project in months, 0 where no duration is given.
pub fn total_months(duration: &Option<ProjectDuration>) -> (months: i64)
    ensures
        months == total_months_of(*duration),
{
    match duration {
        Some(d) => {
            let days: i64 = d.days as i64;
            let full: i64 = if days >= 0 {
                days / 30
            } else {
                -((29 - days) / 30)
            };
            assert(full == d.days / 30) by {
                if days < 0 {
                    assert((29 - days) / 30 == -(days / 30)) by (nonlinear_arith)
                        requires
                            days < 0,
                    ;
                }
            }
            (d.years as i64) * 12 + (d.months as i64) + full
        },
        None => 0,
    }
}

/// The e-mail addresses of the co-investigators, joined by `", "`.
pub fn format_co_pi_emails(people: &Option<Vec<CoPI>>) -> (s: String)
    ensures
        s@ == co_pi_email_text(people.deep_view()),
{
    match people {
        Some(list) => {
            let mut emails: Vec<String> = Vec::new();
            let mut i: usize = 0;
            while i < list.len()
                invariant
                    i <= list.len(),
                    emails.deep_view() == emails_of(list.deep_view()).take(i as int),
                decreases list.len() - i,
            {
                let ghost before = emails.deep_view();
                emails.push(list[i].email.clone());
                assert(emails.deep_view() =~= before.push(list[i as int].email@));
                assert(emails.deep_view() =~= emails_of(list.deep_view()).take(i as int + 1));
                i = i + 1;
            }
            assert(emails.deep_view() =~= emails_of(list.deep_view()));
            join_strings(&emails, ", ")
        },
        None => String::new(),
    }
}

/// The names of the co-investigators, joined by `", "`.
pub fn format_co_pi_names(people: &Option<Vec<CoPI>>) -> (s: String)
    ensures
        s@ == co_pi_name_text(people.deep_view()),
{
    match people {
        Some(list) => {
            let mut names: Vec<String> = Vec::new();
            let mut i: usize = 0;
            while i < list.len()
                invariant
                    i <= list.len(),
                    names.deep_view() == names_of(list.deep_view()).take(i as int),
                decreases list.len() - i,
            {
                let ghost before = names.deep_view();
                names.push(list[i].name.clone());
                assert(names.deep_view() =~= before.push(list[i as int].name@));
                assert(names.deep_view() =~= names_of(list.deep_view()).take(i as int + 1));
                i = i + 1;
            }
            assert(names.deep_view() =~= names_of(list.deep_view()));
            join_strings(&names, ", ")
        },
        None => String::new(),
    }
}

/// Where the list of a list-or-text field is absent or empty and the free
/// text is present, the display is the free text exactly.
pub proof fn lemma_empty_list_shows_text(list: Option<Seq<Seq<char>>>, text: Seq<char>)
    requires
        list matches Some(items) ==> items.len() == 0,
    ensures
        list_or_text(list, Some(text)) == text,
{
}

/// Where the list of a list-or-text field holds anything, the display is
/// its items joined by `"; "`, whatever the free text is.
pub proof fn lemma_list_overrides_text(items: Seq<Seq<char>>, text: Option<Seq<char>>)
    requires
        items.len() > 0,
    ensures
        list_or_text(Some(items), text) == join(items, "; "@),
{
}

} // verus!
