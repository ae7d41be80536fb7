//! What surrounds an assembly: which submission is rendered, how the files
//! of a rendering are named, how the converter is called, and what is
//! answered to the client in each outcome.

use vstd::prelude::*;
use vstd::string::*;

use crate::models::{Submission, SubmissionResponse};
use crate::text::append_str;

verus! {

/// The lowercase form of a text, as `str::to_lowercase` of the standard
/// library gives it.
pub uninterp spec fn lowercase_text(text: Seq<char>) -> Seq<char>;

/// Calls `str::to_lowercase`, which returns the lowercase equivalent of
/// its argument as a new string. The contract gives that result a name
/// and claims nothing else of it.
#[verifier::external_body]
fn to_lowercase(text: &str) -> (lowered: String)
    ensures
        lowered@ == lowercase_text(text@),
{
    text.to_lowercase()
}

/// Whether a status, already in lowercase, is that of a submitted
/// application.
pub fn is_submitted_word(lowered: &str) -> (yes: bool)
    ensures
        yes == (lowered@ == "submitted"@),
{
    let word = String::from_str("submitted");
    let given = String::from_str(lowered);
    given == word
}

/// Whether a status is that of a submitted application, whatever its
/// case.
pub open spec fn submitted(status: Seq<char>) -> bool {
    lowercase_text(status) == "submitted"@
}

/// Whether the submission's status is that of a submitted application,
/// whatever its case.
pub fn is_submitted(submission: &Submission) -> (yes: bool)
    ensures
        yes == submitted(submission.deep_view().status),
{
    let lowered = to_lowercase(submission.status.as_str());
    is_submitted_word(lowered.as_str())
}

/// The place of the first submitted application in `submissions`, or
/// `None` where there is none: the application that is rendered when no
/// particular one is asked for.
pub fn first_submitted(submissions: &Vec<Submission>) -> (found: Option<usize>)
    ensures
        match found {
            Some(at) => {
                &&& at < submissions.len()
                &&& submitted(submissions.deep_view()[at as int].status)
                &&& forall|k: int|
                    0 <= k < at ==> !submitted((#[trigger] submissions.deep_view()[k]).status)
            },
            None => forall|k: int|
                0 <= k < submissions.len() ==> !submitted(
                    (#[trigger] submissions.deep_view()[k]).status,
                ),
        },
{
    let mut i: usize = 0;
    while i < submissions.len()
        invariant
            i <= submissions.len(),
            forall|k: int| 0 <= k < i ==> !submitted((#[trigger] submissions.deep_view()[k]).status),
        decreases submissions.len() - i,
    {
        if is_submitted(&submissions[i]) {
            return Some(i);
        }
        i = i + 1;
    }
    None
}

/// The name of the intermediate document of a rendering that began at
/// `stamp`.
pub open spec fn docx_path_of(stamp: Seq<char>) -> Seq<char> {
    "temp_"@ + stamp + ".docx"@
}

/// The file name under which the rendering of the submission `unique_id`
/// is handed out.
pub open spec fn pdf_filename_of(unique_id: Seq<char>) -> Seq<char> {
    "proposal_"@ + unique_id + ".pdf"@
}

/// The place of a rendering below the output directory.
pub open spec fn pdf_path_of(filename: Seq<char>) -> Seq<char> {
    "output/"@ + filename
}

/// The header value that hands a rendering out as a download.
pub open spec fn attachment_of(filename: Seq<char>) -> Seq<char> {
    "attachment; filename=\""@ + filename + "\""@
}

/// The name of the intermediate document of a rendering that began at
/// `stamp`, a time written in digits.
pub fn docx_path(stamp: &str) -> (path: String)
    ensures
        path@ == docx_path_of(stamp@),
{
    let mut path = append_str("temp_", stamp);
    path.append(".docx");
    path
}

/// The file name under which the rendering of a submission is handed out.
pub fn pdf_filename(unique_id: &str) -> (name: String)
    ensures
        name@ == pdf_filename_of(unique_id@),
{
    let mut name = append_str("proposal_", unique_id);
    name.append(".pdf");
    name
}

/// The place of a rendering below the output directory.
pub fn pdf_path(filename: &str) -> (path: String)
    ensures
        path@ == pdf_path_of(filename@),
{
    append_str("output/", filename)
}

/// How the converter is called on one document, and where its output is
/// found and left.
#[derive(Clone, Debug, PartialEq, Eq)]
pub struct ConversionPlan {
    /// The converter's arguments, in order.
    pub arguments: Vec<String>,
    /// Where the converter leaves its output.
    pub default_output: String,
    /// Where the output is left in the end.
    pub final_output: String,
    /// Whether the output is moved from the one place to the other.
    pub rename: bool,
}

/// The mathematical value of a [`ConversionPlan`].
pub struct ConversionPlanView {
    pub arguments: Seq<Seq<char>>,
    pub default_output: Seq<char>,
    pub final_output: Seq<char>,
    pub rename: bool,
}

impl DeepView for ConversionPlan {
    type V = ConversionPlanView;

    open spec fn deep_view(&self) -> ConversionPlanView {
        ConversionPlanView {
            arguments: self.arguments.deep_view(),
            default_output: self.default_output@,
            final_output: self.final_output@,
            rename: self.rename,
        }
    }
}

/// The plan of a conversion: the converter runs headless and writes a PDF
/// named after the input's stem into `output_dir`; where an output name is
/// asked for, the output is left under that name in the same directory.
pub open spec fn plan_of(
    input: Seq<char>,
    stem: Seq<char>,
    output_dir: Seq<char>,
    output_filename: Option<Seq<char>>,
) -> ConversionPlanView {
    ConversionPlanView {
        arguments: seq![
            "--headless"@,
            "--convert-to"@,
            "pdf"@,
            "--outdir"@,
            output_dir,
            input,
        ],
        default_output: output_dir + "/"@ + stem + ".pdf"@,
        final_output: match output_filename {
            Some(name) => output_dir + "/"@ + name,
            None => output_dir + "/"@ + stem + ".pdf"@,
        },
        rename: output_filename is Some,
    }
}

fn push_word(words: &mut Vec<String>, word: &str)
    ensures
        final(words).deep_view() == old(words).deep_view().push(word@),
{
    words.push(String::from_str(word));
    assert(words.deep_view() =~= old(words).deep_view().push(word@));
}

/// Plans the conversion of the document `input`, whose file stem is
/// `stem`, into `output_dir`.
pub fn plan_conversion(
    input: &str,
    stem: &str,
    output_dir: &str,
    output_filename: Option<&str>,
) -> (plan: ConversionPlan)
    ensures
        plan.deep_view() == plan_of(
            input@,
            stem@,
            output_dir@,
            match output_filename {
                Some(name) => Some(name@),
                None => None,
            },
        ),
{
    let mut arguments: Vec<String> = Vec::new();
    assert(arguments.deep_view() =~= Seq::empty());
    push_word(&mut arguments, "--headless");
    push_word(&mut arguments, "--convert-to");
    push_word(&mut arguments, "pdf");
    push_word(&mut arguments, "--outdir");
    push_word(&mut arguments, output_dir);
    push_word(&mut arguments, input);
    let mut default_output = append_str(output_dir, "/");
    default_output.append(stem);
    default_output.append(".pdf");
    let final_output = match output_filename {
        Some(name) => {
            let mut custom = append_str(output_dir, "/");
            custom.append(name);
            custom
        },
        None => default_output.clone(),
    };
    assert(arguments.deep_view() =~= seq![
        "--headless"@,
        "--convert-to"@,
        "pdf"@,
        "--outdir"@,
        output_dir@,
        input@,
    ]);
    ConversionPlan { arguments, default_output, final_output, rename: output_filename.is_some() }
}

/// The steps of a conversion, in the order in which they are taken.
#[derive(Clone, Copy, Debug, PartialEq, Eq, Structural)]
pub enum ConvertStep {
    /// Make the output directory.
    CreateOutputDir,
    /// See whether the input exists.
    CheckInput,
    /// Run the converter and wait for it.
    RunConverter,
    /// See whether the converter reported success.
    CheckStatus,
    /// See whether the converter left its output.
    CheckOutput,
    /// Move the output to the name asked for.
    Rename,
}

/// The ways in which a conversion can fail.
#[derive(Clone, Copy, Debug, PartialEq, Eq, Structural)]
pub enum ConversionFailure {
    /// The system refused the step; its error says why.
    Io,
    /// The input does not exist.
    InputMissing,
    /// The converter ran and reported failure.
    ConverterFailed,
    /// The converter reported success and left no output.
    OutputMissing,
}

/// What follows a step of a conversion.
#[derive(Clone, Copy, Debug, PartialEq, Eq, Structural)]
pub enum ConvertNext {
    /// Take this step.
    Do(ConvertStep),
    /// Give up with this failure.
    Fail(ConversionFailure),
    /// The output is in its final place.
    Finish,
}

/// What follows the step `step` of a conversion that went well (`ok`) or
/// did not. A step that fails ends the conversion; the output is renamed
/// only where the plan asks for it.
pub open spec fn convert_next_of(step: ConvertStep, ok: bool, rename: bool) -> ConvertNext {
    match step {
        ConvertStep::CreateOutputDir => if ok {
            ConvertNext::Do(ConvertStep::CheckInput)
        } else {
            ConvertNext::Fail(ConversionFailure::Io)
        },
        ConvertStep::CheckInput => if ok {
            ConvertNext::Do(ConvertStep::RunConverter)
        } else {
            ConvertNext::Fail(ConversionFailure::InputMissing)
        },
        ConvertStep::RunConverter => if ok {
            ConvertNext::Do(ConvertStep::CheckStatus)
        } else {
            ConvertNext::Fail(ConversionFailure::Io)
        },
        ConvertStep::CheckStatus => if ok {
            ConvertNext::Do(ConvertStep::CheckOutput)
        } else {
            ConvertNext::Fail(ConversionFailure::ConverterFailed)
        },
        ConvertStep::CheckOutput => if !ok {
            ConvertNext::Fail(ConversionFailure::OutputMissing)
        } else if rename {
            ConvertNext::Do(ConvertStep::Rename)
        } else {
            ConvertNext::Finish
        },
        ConvertStep::Rename => if ok {
            ConvertNext::Finish
        } else {
            ConvertNext::Fail(ConversionFailure::Io)
        },
    }
}

/// The message of a conversion's failure; the system's own error speaks
/// for itself.
pub open spec fn conversion_message_of(failure: ConversionFailure) -> Seq<char> {
    match failure {
        ConversionFailure::Io => Seq::empty(),
        ConversionFailure::InputMissing => "Input file not found"@,
        ConversionFailure::ConverterFailed => "LibreOffice conversion failed"@,
        ConversionFailure::OutputMissing => "Output PDF not created"@,
    }
}

/// What follows the step `step` of a conversion.
pub fn convert_next(step: ConvertStep, ok: bool, plan: &ConversionPlan) -> (next: ConvertNext)
    ensures
        next == convert_next_of(step, ok, plan.deep_view().rename),
{
    match step {
        ConvertStep::CreateOutputDir => if ok {
            ConvertNext::Do(ConvertStep::CheckInput)
        } else {
            ConvertNext::Fail(ConversionFailure::Io)
        },
        ConvertStep::CheckInput => if ok {
            ConvertNext::Do(ConvertStep::RunConverter)
        } else {
            ConvertNext::Fail(ConversionFailure::InputMissing)
        },
        ConvertStep::RunConverter => if ok {
            ConvertNext::Do(ConvertStep::CheckStatus)
        } else {
            ConvertNext::Fail(ConversionFailure::Io)
        },
        ConvertStep::CheckStatus => if ok {
            ConvertNext::Do(ConvertStep::CheckOutput)
        } else {
            ConvertNext::Fail(ConversionFailure::ConverterFailed)
        },
        ConvertStep::CheckOutput => if !ok {
            ConvertNext::Fail(ConversionFailure::OutputMissing)
        } else if plan.rename {
            ConvertNext::Do(ConvertStep::Rename)
        } else {
            ConvertNext::Finish
        },
        ConvertStep::Rename => if ok {
            ConvertNext::Finish
        } else {
            ConvertNext::Fail(ConversionFailure::Io)
        },
    }
}

/// The message of a conversion's failure.
pub fn conversion_message(failure: ConversionFailure) -> (message: String)
    ensures
        message@ == conversion_message_of(failure),
{
    match failure {
        ConversionFailure::Io => String::new(),
        ConversionFailure::InputMissing => String::from_str("Input file not found"),
        ConversionFailure::ConverterFailed => String::from_str("LibreOffice conversion failed"),
        ConversionFailure::OutputMissing => String::from_str("Output PDF not created"),
    }
}

/// The steps of a rendering, in the order in which they are taken.
#[derive(Clone, Copy, Debug, PartialEq, Eq, Structural)]
pub enum RenderStep {
    /// Make the output directory.
    CreateOutputDir,
    /// Create the intermediate document's file.
    CreateDocx,
    /// Build the document and pack it into the file.
    PackDocx,
    /// Convert the document.
    Convert,
    /// Read the rendering back.
    ReadPdf,
    /// Delete the intermediate document.
    RemoveDocx,
}

/// What follows a step of a rendering.
#[derive(Clone, Copy, Debug, PartialEq, Eq, Structural)]
pub enum RenderNext {
    /// Take this step.
    Do(RenderStep),
    /// Answer with this failure; nothing of the rendering is handed out.
    Fail(Failure),
    /// Answer with the rendering.
    Finish,
}

/// What follows the step `step` of a rendering that went well (`ok`) or
/// did not. Every step that fails ends the rendering with its failure,
/// but the last: the rendering is handed out whether or not the
/// intermediate document could be deleted.
pub open spec fn render_next_of(step: RenderStep, ok: bool) -> RenderNext {
    match step {
        RenderStep::CreateOutputDir => if ok {
            RenderNext::Do(RenderStep::CreateDocx)
        } else {
            RenderNext::Fail(Failure::CreateOutputDir)
        },
        RenderStep::CreateDocx => if ok {
            RenderNext::Do(RenderStep::PackDocx)
        } else {
            RenderNext::Fail(Failure::CreateDocx)
        },
        RenderStep::PackDocx => if ok {
            RenderNext::Do(RenderStep::Convert)
        } else {
            RenderNext::Fail(Failure::PackDocx)
        },
        RenderStep::Convert => if ok {
            RenderNext::Do(RenderStep::ReadPdf)
        } else {
            RenderNext::Fail(Failure::Convert)
        },
        RenderStep::ReadPdf => if ok {
            RenderNext::Do(RenderStep::RemoveDocx)
        } else {
            RenderNext::Fail(Failure::ReadPdf)
        },
        RenderStep::RemoveDocx => RenderNext::Finish,
    }
}

/// What follows the step `step` of a rendering.
pub fn render_next(step: RenderStep, ok: bool) -> (next: RenderNext)
    ensures
        next == render_next_of(step, ok),
{
    match step {
        RenderStep::CreateOutputDir => if ok {
            RenderNext::Do(RenderStep::CreateDocx)
        } else {
            RenderNext::Fail(Failure::CreateOutputDir)
        },
        RenderStep::CreateDocx => if ok {
            RenderNext::Do(RenderStep::PackDocx)
        } else {
            RenderNext::Fail(Failure::CreateDocx)
        },
        RenderStep::PackDocx => if ok {
            RenderNext::Do(RenderStep::Convert)
        } else {
            RenderNext::Fail(Failure::PackDocx)
        },
        RenderStep::Convert => if ok {
            RenderNext::Do(RenderStep::ReadPdf)
        } else {
            RenderNext::Fail(Failure::Convert)
        },
        RenderStep::ReadPdf => if ok {
            RenderNext::Do(RenderStep::RemoveDocx)
        } else {
            RenderNext::Fail(Failure::ReadPdf)
        },
        RenderStep::RemoveDocx => RenderNext::Finish,
    }
}

/// The ways in which serving a request can fail.
#[derive(Clone, Copy, Debug, PartialEq, Eq, Structural)]
pub enum Failure {
    /// The record store refused or failed the login.
    Login,
    /// The submissions could not be fetched or read.
    Fetch,
    /// No application among those fetched is submitted.
    NoSubmitted,
    /// The listing could not be written as JSON.
    Serialize,
    /// The output directory could not be made.
    CreateOutputDir,
    /// The intermediate document could not be created.
    CreateDocx,
    /// The intermediate document could not be packed.
    PackDocx,
    /// The converter failed, or left no output.
    Convert,
    /// The rendering could not be read back.
    ReadPdf,
}

/// What the body of an answer holds.
#[derive(Clone, Debug, PartialEq, Eq)]
pub enum Body {
    Text(String),
    Bytes(Vec<u8>),
}

/// The mathematical value of a [`Body`].
pub enum BodyView {
    Text(Seq<char>),
    Bytes(Seq<u8>),
}

impl DeepView for Body {
    type V = BodyView;

    open spec fn deep_view(&self) -> BodyView {
        match self {
            Body::Text(text) => BodyView::Text(text@),
            Body::Bytes(bytes) => BodyView::Bytes(bytes@),
        }
    }
}

/// An answer to a client: status, the two headers that are ever set, and
/// the body.
#[derive(Clone, Debug, PartialEq, Eq)]
pub struct Reply {
    pub status: u16,
    pub content_type: Option<String>,
    pub content_disposition: Option<String>,
    pub body: Body,
}

/// The mathematical value of a [`Reply`].
pub struct ReplyView {
    pub status: u16,
    pub content_type: Option<Seq<char>>,
    pub content_disposition: Option<Seq<char>>,
    pub body: BodyView,
}

impl DeepView for Reply {
    type V = ReplyView;

    open spec fn deep_view(&self) -> ReplyView {
        ReplyView {
            status: self.status,
            content_type: self.content_type.deep_view(),
            content_disposition: self.content_disposition.deep_view(),
            body: self.body.deep_view(),
        }
    }
}

/// The status of the answer to a failure: 404 where nothing is there to
/// render, 500 for everything else.
pub open spec fn failure_status(failure: Failure) -> u16 {
    match failure {
        Failure::NoSubmitted => 404,
        _ => 500,
    }
}

/// The message of the answer to a failure.
pub open spec fn failure_message(failure: Failure) -> Seq<char> {
    match failure {
        Failure::Login => "Failed to login"@,
        Failure::Fetch => "Failed to fetch submissions"@,
        Failure::NoSubmitted => "No submitted applications found"@,
        Failure::Serialize => "Failed to serialize submissions"@,
        Failure::CreateOutputDir => "Failed to create output directory"@,
        Failure::CreateDocx => "Failed to create DOCX file"@,
        Failure::PackDocx => "Failed to create DOCX document"@,
        Failure::Convert => "Failed to generate PDF"@,
        Failure::ReadPdf => "Failed to read PDF file"@,
    }
}

/// The answer to a failure: its status and its message, no headers.
pub open spec fn failure_reply_of(failure: Failure) -> ReplyView {
    ReplyView {
        status: failure_status(failure),
        content_type: None,
        content_disposition: None,
        body: BodyView::Text(failure_message(failure)),
    }
}

/// The answer that hands out a rendering as a download.
pub open spec fn pdf_reply_of(filename: Seq<char>, pdf: Seq<u8>) -> ReplyView {
    ReplyView {
        status: 200,
        content_type: Some("application/pdf"@),
        content_disposition: Some(attachment_of(filename)),
        body: BodyView::Bytes(pdf),
    }
}

/// The answer to a request for the listing: the JSON text, or the failure
/// to write it.
pub open spec fn json_reply_of(json: Option<Seq<char>>) -> ReplyView {
    match json {
        Some(text) => ReplyView {
            status: 200,
            content_type: Some("application/json"@),
            content_disposition: None,
            body: BodyView::Text(text),
        },
        None => failure_reply_of(Failure::Serialize),
    }
}

/// The answer to a failure.
pub fn failure_reply(failure: Failure) -> (reply: Reply)
    ensures
        reply.deep_view() == failure_reply_of(failure),
{
    let status: u16 = match failure {
        Failure::NoSubmitted => 404,
        _ => 500,
    };
    let message: &str = match failure {
        Failure::Login => "Failed to login",
        Failure::Fetch => "Failed to fetch submissions",
        Failure::NoSubmitted => "No submitted applications found",
        Failure::Serialize => "Failed to serialize submissions",
        Failure::CreateOutputDir => "Failed to create output directory",
        Failure::CreateDocx => "Failed to create DOCX file",
        Failure::PackDocx => "Failed to create DOCX document",
        Failure::Convert => "Failed to generate PDF",
        Failure::ReadPdf => "Failed to read PDF file",
    };
    Reply {
        status,
        content_type: None,
        content_disposition: None,
        body: Body::Text(String::from_str(message)),
    }
}

/// The answer that hands out the rendering `pdf` under `filename`.
pub fn pdf_reply(filename: &str, pdf: Vec<u8>) -> (reply: Reply)
    ensures
        reply.deep_view() == pdf_reply_of(filename@, pdf@),
{
    let mut disposition = append_str("attachment; filename=\"", filename);
    disposition.append("\"");
    Reply {
        status: 200,
        content_type: Some(String::from_str("application/pdf")),
        content_disposition: Some(disposition),
        body: Body::Bytes(pdf),
    }
}

impl SubmissionResponse {
    /// The answer to a request for the listing. `json` is the listing
    /// written as JSON, or `None` where that failed.
    pub fn to_json_response(json: Option<String>) -> (reply: Reply)
        ensures
            reply.deep_view() == json_reply_of(json.deep_view()),
    {
        match json {
            Some(text) => Reply {
                status: 200,
                content_type: Some(String::from_str("application/json")),
                content_disposition: None,
                body: Body::Text(text),
            },
            None => failure_reply(Failure::Serialize),
        }
    }
}

/// Only the answer to a missing application is a 404; every failure is
/// answered with its message and without headers.
pub proof fn lemma_failure_statuses(failure: Failure)
    ensures
        failure_reply_of(failure).status == 404 <==> failure == Failure::NoSubmitted,
        failure_reply_of(failure).status == 404 || failure_reply_of(failure).status == 500,
        failure_reply_of(failure).content_type is None,
{
}

} // verus!
