//! The submission record and the records around it.

use vstd::prelude::*;

verus! {

/// Credentials sent to the record store's login endpoint.
#[derive(Clone, Debug, PartialEq, Eq)]
pub struct LoginRequest {
    pub email: String,
    pub password: String,
}

/// The mathematical value of a [`LoginRequest`]: text as sequences of characters.
pub struct LoginRequestView {
    pub email: Seq<char>,
    pub password: Seq<char>,
}

impl DeepView for LoginRequest {
    type V = LoginRequestView;

    open spec fn deep_view(&self) -> LoginRequestView {
        LoginRequestView {
            email: self.email@,
            password: self.password@,
        }
    }
}

/// The record store's answer to a login: a bearer token.
#[derive(Clone, Debug, PartialEq, Eq)]
pub struct LoginResponse {
    pub token: String,
}

/// The mathematical value of a [`LoginResponse`]: text as sequences of characters.
pub struct LoginResponseView {
    pub token: Seq<char>,
}

impl DeepView for LoginResponse {
    type V = LoginResponseView;

    open spec fn deep_view(&self) -> LoginResponseView {
        LoginResponseView {
            token: self.token@,
        }
    }
}

/// Planned length of a project.
#[derive(Clone, Copy, Debug, PartialEq, Eq)]
pub struct ProjectDuration {
    pub days: i32,
    pub months: i32,
    pub years: i32,
}

impl DeepView for ProjectDuration {
    type V = ProjectDuration;

    open spec fn deep_view(&self) -> ProjectDuration {
        *self
    }
}

/// A co-investigator named on a submission.
#[allow(non_snake_case)]
#[derive(Clone, Debug, PartialEq, Eq)]
pub struct CoPI {
    pub email: String,
    pub name: String,
    pub status: String,
    pub accessLevel: Option<String>,
    pub role: Option<String>,
}

/// The mathematical value of a [`CoPI`]: text as sequences of characters.
#[allow(non_snake_case)]
pub struct CoPIView {
    pub email: Seq<char>,
    pub name: Seq<char>,
    pub status: Seq<char>,
    pub accessLevel: Option<Seq<char>>,
    pub role: Option<Seq<char>>,
}

impl DeepView for CoPI {
    type V = CoPIView;

    open spec fn deep_view(&self) -> CoPIView {
        CoPIView {
            email: self.email@,
            name: self.name@,
            status: self.status@,
            accessLevel: self.accessLevel.deep_view(),
            role: self.role.deep_view(),
        }
    }
}

/// One line of a budget category.
#[allow(non_snake_case)]
#[derive(Clone, Debug, PartialEq, Eq)]
pub struct BudgetItem {
    pub heading: String,
    pub id: String,
    pub isRequired: bool,
    pub justification: String,
    /// The stated total, displayed and summed as given.
    pub total: i32,
    /// Amounts per year; three are displayed.
    pub years: Vec<i32>,
}

/// The mathematical value of a [`BudgetItem`]: text as sequences of characters.
#[allow(non_snake_case)]
pub struct BudgetItemView {
    pub heading: Seq<char>,
    pub id: Seq<char>,
    pub isRequired: bool,
    pub justification: Seq<char>,
    pub total: i32,
    pub years: Seq<i32>,
}

impl DeepView for BudgetItem {
    type V = BudgetItemView;

    open spec fn deep_view(&self) -> BudgetItemView {
        BudgetItemView {
            heading: self.heading@,
            id: self.id@,
            isRequired: self.isRequired,
            justification: self.justification@,
            total: self.total,
            years: self.years@,
        }
    }
}

/// A group of budget lines under one label.
#[derive(Clone, Debug, PartialEq, Eq)]
pub struct BudgetCategory {
    pub items: Vec<BudgetItem>,
    /// The category's label.
    pub category_type: String,
}

/// The mathematical value of a [`BudgetCategory`]: text as sequences of characters.
pub struct BudgetCategoryView {
    pub items: Seq<BudgetItemView>,
    pub category_type: Seq<char>,
}

impl DeepView for BudgetCategory {
    type V = BudgetCategoryView;

    open spec fn deep_view(&self) -> BudgetCategoryView {
        BudgetCategoryView {
            items: self.items.deep_view(),
            category_type: self.category_type@,
        }
    }
}

/// One grant-proposal application. Every descriptive field may be absent.
#[derive(Clone, Debug, PartialEq, Eq)]
pub struct Submission {
    /// Identifier assigned by the record store, as compact JSON text.
    pub id: Option<String>,
    /// Workflow status, an open-ended set of words.
    pub status: String,
    /// Grant sub-area.
    pub track: String,
    pub track_code: Option<String>,
    /// Human-facing unique identifier.
    pub unique_id: String,
    /// Time of the last update, as compact JSON text.
    pub updated_at: String,
    /// E-mail address of the principal investigator.
    pub user: String,
    pub created_at: Option<String>,
    pub max_filled: Option<i32>,
    pub additional_information: Option<String>,
    pub industry_partner: Option<String>,
    pub international_research_status: Option<String>,
    pub methodology: Option<String>,
    pub national_research_status: Option<String>,
    pub outside_tiet_uq_experts: Option<Vec<String>>,
    pub outside_tiet_uq_experts_new: Option<String>,
    pub problem_definition: Option<String>,
    pub project_deliverables: Option<Vec<String>>,
    pub project_deliverables_new: Option<String>,
    pub project_duration: Option<ProjectDuration>,
    pub project_importance: Option<String>,
    pub project_keywords: Option<Vec<String>>,
    pub project_objective: Option<Vec<String>>,
    pub project_objective_new: Option<String>,
    pub project_origin: Option<String>,
    pub project_summary: Option<String>,
    pub project_timeline: Option<Vec<String>>,
    pub project_timeline_new: Option<String>,
    pub project_title: Option<String>,
    pub proposal_ppt: Option<Vec<String>>,
    pub references: Option<Vec<String>>,
    pub references_new: Option<String>,
    pub society_impact: Option<String>,
    pub supporting_documents: Option<Vec<String>>,
    pub tiet_uq_facilities: Option<String>,
    pub timeline_diagram: Option<Vec<String>>,
    pub trl_level: Option<String>,
    pub work_organization: Option<String>,
    /// Budget categories in display order.
    pub budget: Option<Vec<BudgetCategory>>,
    /// Co-investigators in display order.
    pub co_pi: Option<Vec<CoPI>>,
    /// Time of discarding, as compact JSON text.
    pub discarded_at: Option<String>,
}

/// The mathematical value of a [`Submission`]: text as sequences of characters.
pub struct SubmissionView {
    pub id: Option<Seq<char>>,
    pub status: Seq<char>,
    pub track: Seq<char>,
    pub track_code: Option<Seq<char>>,
    pub unique_id: Seq<char>,
    pub updated_at: Seq<char>,
    pub user: Seq<char>,
    pub created_at: Option<Seq<char>>,
    pub max_filled: Option<i32>,
    pub additional_information: Option<Seq<char>>,
    pub industry_partner: Option<Seq<char>>,
    pub international_research_status: Option<Seq<char>>,
    pub methodology: Option<Seq<char>>,
    pub national_research_status: Option<Seq<char>>,
    pub outside_tiet_uq_experts: Option<Seq<Seq<char>>>,
    pub outside_tiet_uq_experts_new: Option<Seq<char>>,
    pub problem_definition: Option<Seq<char>>,
    pub project_deliverables: Option<Seq<Seq<char>>>,
    pub project_deliverables_new: Option<Seq<char>>,
    pub project_duration: Option<ProjectDuration>,
    pub project_importance: Option<Seq<char>>,
    pub project_keywords: Option<Seq<Seq<char>>>,
    pub project_objective: Option<Seq<Seq<char>>>,
    pub project_objective_new: Option<Seq<char>>,
    pub project_origin: Option<Seq<char>>,
    pub project_summary: Option<Seq<char>>,
    pub project_timeline: Option<Seq<Seq<char>>>,
    pub project_timeline_new: Option<Seq<char>>,
    pub project_title: Option<Seq<char>>,
    pub proposal_ppt: Option<Seq<Seq<char>>>,
    pub references: Option<Seq<Seq<char>>>,
    pub references_new: Option<Seq<char>>,
    pub society_impact: Option<Seq<char>>,
    pub supporting_documents: Option<Seq<Seq<char>>>,
    pub tiet_uq_facilities: Option<Seq<char>>,
    pub timeline_diagram: Option<Seq<Seq<char>>>,
    pub trl_level: Option<Seq<char>>,
    pub work_organization: Option<Seq<char>>,
    pub budget: Option<Seq<BudgetCategoryView>>,
    pub co_pi: Option<Seq<CoPIView>>,
    pub discarded_at: Option<Seq<char>>,
}

impl DeepView for Submission {
    type V = SubmissionView;

    open spec fn deep_view(&self) -> SubmissionView {
        SubmissionView {
            id: self.id.deep_view(),
            status: self.status@,
            track: self.track@,
            track_code: self.track_code.deep_view(),
            unique_id: self.unique_id@,
            updated_at: self.updated_at@,
            user: self.user@,
            created_at: self.created_at.deep_view(),
            max_filled: self.max_filled,
            additional_information: self.additional_information.deep_view(),
            industry_partner: self.industry_partner.deep_view(),
            international_research_status: self.international_research_status.deep_view(),
            methodology: self.methodology.deep_view(),
            national_research_status: self.national_research_status.deep_view(),
            outside_tiet_uq_experts: self.outside_tiet_uq_experts.deep_view(),
            outside_tiet_uq_experts_new: self.outside_tiet_uq_experts_new.deep_view(),
            problem_definition: self.problem_definition.deep_view(),
            project_deliverables: self.project_deliverables.deep_view(),
            project_deliverables_new: self.project_deliverables_new.deep_view(),
            project_duration: self.project_duration,
            project_importance: self.project_importance.deep_view(),
            project_keywords: self.project_keywords.deep_view(),
            project_objective: self.project_objective.deep_view(),
            project_objective_new: self.project_objective_new.deep_view(),
            project_origin: self.project_origin.deep_view(),
            project_summary: self.project_summary.deep_view(),
            project_timeline: self.project_timeline.deep_view(),
            project_timeline_new: self.project_timeline_new.deep_view(),
            project_title: self.project_title.deep_view(),
            proposal_ppt: self.proposal_ppt.deep_view(),
            references: self.references.deep_view(),
            references_new: self.references_new.deep_view(),
            society_impact: self.society_impact.deep_view(),
            supporting_documents: self.supporting_documents.deep_view(),
            tiet_uq_facilities: self.tiet_uq_facilities.deep_view(),
            timeline_diagram: self.timeline_diagram.deep_view(),
            trl_level: self.trl_level.deep_view(),
            work_organization: self.work_organization.deep_view(),
            budget: self.budget.deep_view(),
            co_pi: self.co_pi.deep_view(),
            discarded_at: self.discarded_at.deep_view(),
        }
    }
}

/// The part of a submission that is listed back to a client.
#[derive(Clone, Debug, PartialEq, Eq)]
pub struct SubmissionResponse {
    pub id: String,
    pub status: String,
    pub track: String,
    pub track_code: Option<String>,
    pub unique_id: String,
    pub updated_at: String,
    pub user: String,
    pub created_at: Option<String>,
    pub max_filled: Option<i32>,
    pub additional_information: Option<String>,
    pub project_duration: Option<ProjectDuration>,
    pub project_keywords: Option<Vec<String>>,
    pub project_objective: Option<Vec<String>>,
    pub project_objective_new: Option<String>,
    pub project_summary: Option<String>,
    pub project_title: Option<String>,
    pub supporting_documents: Option<Vec<String>>,
    pub co_pi: Option<Vec<CoPI>>,
    pub discarded_at: Option<String>,
}

/// The mathematical value of a [`SubmissionResponse`]: text as sequences of characters.
pub struct SubmissionResponseView {
    pub id: Seq<char>,
    pub status: Seq<char>,
    pub track: Seq<char>,
    pub track_code: Option<Seq<char>>,
    pub unique_id: Seq<char>,
    pub updated_at: Seq<char>,
    pub user: Seq<char>,
    pub created_at: Option<Seq<char>>,
    pub max_filled: Option<i32>,
    pub additional_information: Option<Seq<char>>,
    pub project_duration: Option<ProjectDuration>,
    pub project_keywords: Option<Seq<Seq<char>>>,
    pub project_objective: Option<Seq<Seq<char>>>,
    pub project_objective_new: Option<Seq<char>>,
    pub project_summary: Option<Seq<char>>,
    pub project_title: Option<Seq<char>>,
    pub supporting_documents: Option<Seq<Seq<char>>>,
    pub co_pi: Option<Seq<CoPIView>>,
    pub discarded_at: Option<Seq<char>>,
}

impl DeepView for SubmissionResponse {
    type V = SubmissionResponseView;

    open spec fn deep_view(&self) -> SubmissionResponseView {
        SubmissionResponseView {
            id: self.id@,
            status: self.status@,
            track: self.track@,
            track_code: self.track_code.deep_view(),
            unique_id: self.unique_id@,
            updated_at: self.updated_at@,
            user: self.user@,
            created_at: self.created_at.deep_view(),
            max_filled: self.max_filled,
            additional_information: self.additional_information.deep_view(),
            project_duration: self.project_duration,
            project_keywords: self.project_keywords.deep_view(),
            project_objective: self.project_objective.deep_view(),
            project_objective_new: self.project_objective_new.deep_view(),
            project_summary: self.project_summary.deep_view(),
            project_title: self.project_title.deep_view(),
            supporting_documents: self.supporting_documents.deep_view(),
            co_pi: self.co_pi.deep_view(),
            discarded_at: self.discarded_at.deep_view(),
        }
    }
}

/// What is listed back of one submission. The fields are carried over as
/// they are; an absent identifier is listed as the empty string.
pub open spec fn response_of(submission: SubmissionView) -> SubmissionResponseView {
    SubmissionResponseView {
        id: match submission.id {
            Some(text) => text,
            None => Seq::empty(),
        },
        status: submission.status,
        track: submission.track,
        track_code: submission.track_code,
        unique_id: submission.unique_id,
        updated_at: submission.updated_at,
        user: submission.user,
        created_at: submission.created_at,
        max_filled: submission.max_filled,
        additional_information: submission.additional_information,
        project_duration: submission.project_duration,
        project_keywords: submission.project_keywords,
        project_objective: submission.project_objective,
        project_objective_new: submission.project_objective_new,
        project_summary: submission.project_summary,
        project_title: submission.project_title,
        supporting_documents: submission.supporting_documents,
        co_pi: submission.co_pi,
        discarded_at: submission.discarded_at,
    }
}

/// What is listed back of each submission of a list, in list order.
pub open spec fn responses_of(submissions: Seq<SubmissionView>) -> Seq<SubmissionResponseView> {
    Seq::new(submissions.len(), |i: int| response_of(submissions[i]))
}

impl SubmissionResponse {
    /// What is listed back of one submission.
    pub fn from_submission(submission: Submission) -> (response: SubmissionResponse)
        ensures
            response.deep_view() == response_of(submission.deep_view()),
    {
        SubmissionResponse {
            id: match submission.id {
                Some(text) => text,
                None => String::new(),
            },
            status: submission.status,
            track: submission.track,
            track_code: submission.track_code,
            unique_id: submission.unique_id,
            updated_at: submission.updated_at,
            user: submission.user,
            created_at: submission.created_at,
            max_filled: submission.max_filled,
            additional_information: submission.additional_information,
            project_duration: submission.project_duration,
            project_keywords: submission.project_keywords,
            project_objective: submission.project_objective,
            project_objective_new: submission.project_objective_new,
            project_summary: submission.project_summary,
            project_title: submission.project_title,
            supporting_documents: submission.supporting_documents,
            co_pi: submission.co_pi,
            discarded_at: submission.discarded_at,
        }
    }

    /// What is listed back of each submission, in the order given.
    pub fn from_submissions(submissions: Vec<Submission>) -> (responses: Vec<SubmissionResponse>)
        ensures
            responses.deep_view() == responses_of(submissions.deep_view()),
    {
        let ghost all = submissions.deep_view();
        let mut responses: Vec<SubmissionResponse> = Vec::new();
        assert(responses.deep_view() =~= responses_of(all).take(0));
        for submission in it: submissions
            invariant
                it.seq() == submissions@,
                all == submissions.deep_view(),
                responses.deep_view() == responses_of(all).take(it.index() as int),
        {
            let ghost before = responses.deep_view();
            let ghost added = response_of(submission.deep_view());
            responses.push(SubmissionResponse::from_submission(submission));
            assert(responses.deep_view() =~= before.push(added));
            assert(responses.deep_view() =~= responses_of(all).take(it.index() as int + 1));
        }
        assert(responses_of(all).take(submissions@.len() as int) =~= responses_of(all));
        responses
    }
}

} // verus!
