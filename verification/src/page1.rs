//! The cover page: title, programme banner, investigators and the
//! institution's name and address.

use vstd::prelude::*;

use crate::content::{append_blocks, push_block, Alignment, Block, BlockView, Span, SpanView};
use crate::text::{decimal, decimal_nat, padded};
use crate::formatter::{display_or_empty, emails_of, text_or_empty};
use crate::models::{CoPI, CoPIView, Submission, SubmissionView};

verus! {

/// The largest number of co-investigators that the cover names.
pub const MAX_COPI_DISPLAY: usize = 5;

/// A centred paragraph of one run.
pub open spec fn centered(span: SpanView) -> BlockView {
    BlockView::blank().aligned(Alignment::Center).with_text(span)
}

/// The upper part of the cover, down to the principal investigator. An
/// absent title is shown as the empty text.
pub open spec fn cover_head(title: Option<Seq<char>>, user: Seq<char>) -> Seq<BlockView> {
    seq![
        centered(SpanView::plain(text_or_empty(title)).bolded().sized(48)),
        BlockView::blank(),
        BlockView::blank(),
        centered(
            SpanView::plain("COE-DSAI SEED GRANT PROPOSAL"@).bolded().sized(48).colored("#800020"@),
        ),
        BlockView::blank(),
        BlockView::blank(),
        BlockView::blank(),
        centered(SpanView::plain("PI Details"@).bolded().sized(48)),
        BlockView::blank(),
        centered(SpanView::plain("Principal Investigator"@).sized(36)),
        BlockView::blank(),
        centered(SpanView::plain(user).bolded().sized(40)),
        BlockView::blank(),
    ]
}

/// The e-mail addresses that the cover names: those of the first
/// [`MAX_COPI_DISPLAY`] co-investigators.
pub open spec fn shown_emails(people: Option<Seq<CoPIView>>) -> Seq<Seq<char>> {
    match people {
        Some(list) => if list.len() <= MAX_COPI_DISPLAY {
            emails_of(list)
        } else {
            emails_of(list).take(MAX_COPI_DISPLAY as int)
        },
        None => Seq::empty(),
    }
}

/// The label that opens the co-investigators' part of the cover.
pub open spec fn co_pi_label() -> BlockView {
    centered(SpanView::plain("Co-Principal Investigator(s)"@).sized(32))
}

/// The line that names one co-investigator.
pub open spec fn co_pi_line(email: Seq<char>) -> BlockView {
    centered(SpanView::plain(email).bolded().sized(36))
}

/// The co-investigators' part of the cover: nothing where there are none,
/// else the label, an empty paragraph and one line each.
pub open spec fn co_pi_part(emails: Seq<Seq<char>>) -> Seq<BlockView> {
    if emails.len() == 0 {
        Seq::empty()
    } else {
        seq![co_pi_label(), BlockView::blank()] + Seq::new(
            emails.len(),
            |i: int| co_pi_line(emails[i]),
        )
    }
}

/// The number of empty paragraphs that keep the lower part in place.
pub open spec fn filler_count(shown: nat) -> nat {
    if shown == 0 {
        8
    } else if 2 + shown <= 7 {
        (6 - shown) as nat
    } else {
        1
    }
}

/// `n` empty paragraphs.
pub open spec fn filler(n: nat) -> Seq<BlockView> {
    Seq::new(n, |i: int| BlockView::blank())
}

/// The paragraph that shows the institution's logo.
pub open spec fn logo_block(bytes: Seq<u8>) -> BlockView {
    BlockView::blank().aligned(Alignment::Center).with_image(bytes)
}

/// The logo and the empty paragraph below it, where a logo is at hand.
pub open spec fn logo_part(logo: Option<Seq<u8>>) -> Seq<BlockView> {
    match logo {
        Some(bytes) => seq![logo_block(bytes), BlockView::blank()],
        None => Seq::empty(),
    }
}

/// The institution's name and address, and the date.
pub open spec fn cover_foot(date: Seq<char>) -> Seq<BlockView> {
    seq![
        centered(
            SpanView::plain("Centre of Excellence in Data Science and"@).bolded().sized(
                36,
            ).colored("#0066CC"@),
        ),
        centered(SpanView::plain("Artificial Intelligence"@).bolded().sized(36).colored("#0066CC"@)),
        BlockView::blank(),
        centered(
            SpanView::plain("Thapar Institute of Engineering and Technology"@).bolded().sized(36),
        ),
        BlockView::blank(),
        centered(SpanView::plain("Patiala 147004"@).bolded().sized(36)),
        BlockView::blank(),
        centered(SpanView::plain(date).sized(36)),
    ]
}

/// The whole cover.
pub open spec fn cover(submission: SubmissionView, logo: Option<Seq<u8>>, date: Seq<char>) -> Seq<
    BlockView,
> {
    cover_head(submission.project_title, submission.user) + co_pi_part(
        shown_emails(submission.co_pi),
    ) + filler(filler_count(shown_emails(submission.co_pi).len())) + logo_part(logo)
        + cover_foot(date)
}

fn centered_of(span: Span) -> (block: Block)
    ensures
        block.deep_view() == centered(span.deep_view()),
{
    Block::new().align(Alignment::Center).add_run(span)
}

fn cover_head_of(submission: &Submission) -> (blocks: Vec<Block>)
    ensures
        blocks.deep_view() == cover_head(
            submission.deep_view().project_title,
            submission.deep_view().user,
        ),
{
    let title = display_or_empty(&submission.project_title);
    let mut blocks: Vec<Block> = Vec::new();
    assert(blocks.deep_view() =~= Seq::empty());
    push_block(&mut blocks, centered_of(Span::new(title.as_str()).bold().size(48)));
    push_block(&mut blocks, Block::new());
    push_block(&mut blocks, Block::new());
    push_block(
        &mut blocks,
        centered_of(Span::new("COE-DSAI SEED GRANT PROPOSAL").bold().size(48).color("#800020")),
    );
    push_block(&mut blocks, Block::new());
    push_block(&mut blocks, Block::new());
    push_block(&mut blocks, Block::new());
    push_block(&mut blocks, centered_of(Span::new("PI Details").bold().size(48)));
    push_block(&mut blocks, Block::new());
    push_block(&mut blocks, centered_of(Span::new("Principal Investigator").size(36)));
    push_block(&mut blocks, Block::new());
    push_block(&mut blocks, centered_of(Span::new(submission.user.as_str()).bold().size(40)));
    push_block(&mut blocks, Block::new());
    assert(blocks.deep_view() =~= cover_head(
        submission.deep_view().project_title,
        submission.deep_view().user,
    ));
    blocks
}

fn co_pi_part_of(people: &Option<Vec<CoPI>>) -> (blocks: Vec<Block>)
    ensures
        blocks.deep_view() == co_pi_part(shown_emails(people.deep_view())) + filler(
            filler_count(shown_emails(people.deep_view()).len()),
        ),
{
    let ghost emails = shown_emails(people.deep_view());
    let mut blocks: Vec<Block> = Vec::new();
    assert(blocks.deep_view() =~= Seq::empty());
    let mut shown: usize = 0;
    match people {
        Some(list) => {
            let limit: usize = if list.len() <= MAX_COPI_DISPLAY {
                list.len()
            } else {
                MAX_COPI_DISPLAY
            };
            assert(emails.len() == limit);
            if limit > 0 {
                push_block(
                    &mut blocks,
                    centered_of(Span::new("Co-Principal Investigator(s)").size(32)),
                );
                push_block(&mut blocks, Block::new());
                let ghost opening = blocks.deep_view();
                while shown < limit
                    invariant
                        shown <= limit <= list.len(),
                        limit == emails.len(),
                        emails == shown_emails(people.deep_view()),
                        *people == Some(*list),
                        blocks.deep_view() == opening + Seq::new(
                            shown as nat,
                            |i: int| co_pi_line(emails[i]),
                        ),
                    decreases limit - shown,
                {
                    push_block(
                        &mut blocks,
                        centered_of(Span::new(list[shown].email.as_str()).bold().size(36)),
                    );
                    assert(blocks.deep_view() =~= opening + Seq::new(
                        (shown + 1) as nat,
                        |i: int| co_pi_line(emails[i]),
                    ));
                    shown = shown + 1;
                }
                assert(blocks.deep_view() =~= co_pi_part(emails));
            }
        },
        None => {},
    }
    assert(shown == emails.len());
    let blanks: usize = if shown == 0 {
        8
    } else if 2 + shown <= 7 {
        6 - shown
    } else {
        1
    };
    let ghost part = blocks.deep_view();
    let mut i: usize = 0;
    assert(blocks.deep_view() =~= part + filler(0));
    while i < blanks
        invariant
            i <= blanks,
            blocks.deep_view() == part + filler(i as nat),
        decreases blanks - i,
    {
        push_block(&mut blocks, Block::new());
        assert(blocks.deep_view() =~= part + filler((i + 1) as nat));
        i = i + 1;
    }
    blocks
}

fn cover_foot_of(formatted_date: &str) -> (blocks: Vec<Block>)
    ensures
        blocks.deep_view() == cover_foot(formatted_date@),
{
    let mut blocks: Vec<Block> = Vec::new();
    assert(blocks.deep_view() =~= Seq::empty());
    push_block(
        &mut blocks,
        centered_of(
            Span::new("Centre of Excellence in Data Science and").bold().size(36).color("#0066CC"),
        ),
    );
    push_block(
        &mut blocks,
        centered_of(Span::new("Artificial Intelligence").bold().size(36).color("#0066CC")),
    );
    push_block(&mut blocks, Block::new());
    push_block(
        &mut blocks,
        centered_of(Span::new("Thapar Institute of Engineering and Technology").bold().size(36)),
    );
    push_block(&mut blocks, Block::new());
    push_block(&mut blocks, centered_of(Span::new("Patiala 147004").bold().size(36)));
    push_block(&mut blocks, Block::new());
    push_block(&mut blocks, centered_of(Span::new(formatted_date).size(36)));
    assert(blocks.deep_view() =~= cover_foot(formatted_date@));
    blocks
}

/// The cover page of a submission. `logo` holds the bytes of the
/// institution's logo where they could be had; `formatted_date` is the
/// month and year shown at the foot.
pub fn page1_content(submission: &Submission, logo: Option<Vec<u8>>, formatted_date: &str) -> (blocks:
    Vec<Block>)
    ensures
        blocks.deep_view() == cover(submission.deep_view(), logo.deep_view(), formatted_date@),
{
    let ghost logo_bytes = logo.deep_view();
    let mut blocks = cover_head_of(submission);
    append_blocks(&mut blocks, co_pi_part_of(&submission.co_pi));
    let ghost upper = blocks.deep_view();
    match logo {
        Some(bytes) => {
            assert(bytes.deep_view() =~= bytes@);
            push_block(&mut blocks, Block::new().align(Alignment::Center).add_image(bytes));
            push_block(&mut blocks, Block::new());
        },
        None => {},
    }
    assert(blocks.deep_view() =~= upper + logo_part(logo_bytes));
    append_blocks(&mut blocks, cover_foot_of(formatted_date));
    assert(blocks.deep_view() =~= cover(submission.deep_view(), logo_bytes, formatted_date@));
    blocks
}

/// Whether chrono has the month `month` of the year `year`: the month is
/// one of the twelve and the year is within chrono's range.
pub open spec fn month_exists(year: i32, month: u32) -> bool {
    1 <= month <= 12 && -262143 <= year <= 262142
}

/// The English name of the month `month`, counted from 1.
pub open spec fn month_name(month: u32) -> Seq<char> {
    if month == 1 {
        "January"@
    } else if month == 2 {
        "February"@
    } else if month == 3 {
        "March"@
    } else if month == 4 {
        "April"@
    } else if month == 5 {
        "May"@
    } else if month == 6 {
        "June"@
    } else if month == 7 {
        "July"@
    } else if month == 8 {
        "August"@
    } else if month == 9 {
        "September"@
    } else if month == 10 {
        "October"@
    } else if month == 11 {
        "November"@
    } else {
        "December"@
    }
}

/// The year as a date shows it: four digits with leading zeros from 0 to
/// 9999; beyond that a sign and the magnitude in at least four digits.
pub open spec fn year_text(year: int) -> Seq<char> {
    if 0 <= year <= 9999 {
        padded(year as nat, 4)
    } else if year > 9999 {
        seq!['+'] + decimal_nat(year as nat)
    } else if year >= -9999 {
        seq!['-'] + padded((-year) as nat, 4)
    } else {
        seq!['-'] + decimal_nat((-year) as nat)
    }
}

/// The date of a cover: the month's name, a space and the year; `None`
/// where there is no such month.
pub open spec fn month_year_of(year: i32, month: u32) -> Option<Seq<char>> {
    if month_exists(year, month) {
        Some(month_name(month) + seq![' '] + year_text(year as int))
    } else {
        None
    }
}

/// Calls `chrono::NaiveDate::format` with the format `%B %Y` on the
/// first day of the given month, which `chrono::NaiveDate::from_ymd_opt`
/// makes. The contract claims of chrono what its source and documentation
/// show: `from_ymd_opt` returns `None` where the month is 0 or above 12 or
/// the year is outside chrono's range, and a date else; `%B` writes the
/// month's full English name; `%Y` writes the year in four digits with
/// leading zeros, and with a sign and at least four digits where it is
/// below 0 or above 9999. The format is valid, so writing the result does
/// not fail.
#[verifier::external_body]
fn format_month_year(year: i32, month: u32) -> (label: Option<String>)
    ensures
        label.deep_view() == month_year_of(year, month),
{
    match chrono::NaiveDate::from_ymd_opt(year, month, 1) {
        Some(day) => Some(day.format("%B %Y").to_string()),
        None => None,
    }
}

/// The cover page of a submission, dated with the month `month` of the
/// year `year`; `None` where there is no such month.
pub fn page1_content_on(submission: &Submission, logo: Option<Vec<u8>>, year: i32, month: u32) -> (blocks:
    Option<Vec<Block>>)
    ensures
        blocks.deep_view() == match month_year_of(year, month) {
            Some(date) => Some(cover(submission.deep_view(), logo.deep_view(), date)),
            None => None,
        },
{
    match format_month_year(year, month) {
        Some(date) => Some(page1_content(submission, logo, date.as_str())),
        None => None,
    }
}

/// The cover page without the logo.
pub fn create_placeholder_content(submission: &Submission, formatted_date: &str) -> (blocks: Vec<
    Block,
>)
    ensures
        blocks.deep_view() == cover(submission.deep_view(), None, formatted_date@),
{
    page1_content(submission, None, formatted_date)
}

/// Whether a paragraph has the shape that only the co-investigators'
/// label has on a cover: one run of text of size 32.
spec fn sized_like_label(block: BlockView) -> bool {
    &&& block.runs.len() == 1
    &&& block.runs[0] matches crate::content::InlineView::Text(span)
    &&& span.size == Some(32usize)
}

proof fn lemma_no_label_outside_co_pi_part(
    title: Option<Seq<char>>,
    user: Seq<char>,
    n: nat,
    logo: Option<Seq<u8>>,
    date: Seq<char>,
)
    ensures
        forall|i: int|
            0 <= i < cover_head(title, user).len() ==> !sized_like_label(
                #[trigger] cover_head(title, user)[i],
            ),
        forall|i: int| 0 <= i < filler(n).len() ==> !sized_like_label(#[trigger] filler(n)[i]),
        forall|i: int|
            0 <= i < logo_part(logo).len() ==> !sized_like_label(#[trigger] logo_part(logo)[i]),
        forall|i: int|
            0 <= i < cover_foot(date).len() ==> !sized_like_label(#[trigger] cover_foot(date)[i]),
{
}

/// The cover of a submission without co-investigators holds no
/// co-investigator label: it is the upper part, eight empty paragraphs,
/// the logo where there is one, and the lower part.
pub proof fn lemma_cover_without_co_pis(
    submission: SubmissionView,
    logo: Option<Seq<u8>>,
    date: Seq<char>,
)
    requires
        submission.co_pi matches Some(list) ==> list.len() == 0,
    ensures
        cover(submission, logo, date) == cover_head(submission.project_title, submission.user)
            + filler(8) + logo_part(logo) + cover_foot(date),
        !cover(submission, logo, date).contains(co_pi_label()),
{
    let head = cover_head(submission.project_title, submission.user);
    let whole = cover(submission, logo, date);
    assert(shown_emails(submission.co_pi).len() == 0);
    assert(co_pi_part(shown_emails(submission.co_pi)) =~= Seq::empty());
    assert(whole =~= head + filler(8) + logo_part(logo) + cover_foot(date));
    lemma_no_label_outside_co_pi_part(submission.project_title, submission.user, 8, logo, date);
    assert(sized_like_label(co_pi_label()));
    assert forall|i: int| 0 <= i < whole.len() implies whole[i] != co_pi_label() by {
        if i < head.len() {
            assert(whole[i] == head[i]);
        } else if i < head.len() + 8 {
            assert(whole[i] == filler(8)[i - head.len()]);
        } else if i < head.len() + 8 + logo_part(logo).len() {
            assert(whole[i] == logo_part(logo)[i - head.len() - 8]);
        } else {
            assert(whole[i] == cover_foot(date)[i - head.len() - 8 - logo_part(logo).len()]);
        }
    }
}

/// The first paragraph of a cover shows the project's title, and the
/// empty text where the submission has none.
pub proof fn lemma_cover_shows_title(
    submission: SubmissionView,
    logo: Option<Seq<u8>>,
    date: Seq<char>,
)
    ensures
        cover(submission, logo, date)[0] == centered(
            SpanView::plain(
                match submission.project_title {
                    Some(title) => title,
                    None => Seq::empty(),
                },
            ).bolded().sized(48),
        ),
{
    let head = cover_head(submission.project_title, submission.user);
    assert(cover(submission, logo, date)[0] == head[0]);
}

/// A year of four digits is shown as its decimal numeral.
pub proof fn lemma_year_text_of_four_digits(year: int)
    requires
        1000 <= year <= 9999,
    ensures
        year_text(year) == decimal(year),
{
    reveal_with_fuel(padded, 5);
    reveal_with_fuel(decimal_nat, 5);
    assert(year_text(year) =~= decimal(year));
}

/// The cover of a submission with a co-investigator holds the
/// co-investigator label, right below the upper part.
pub proof fn lemma_cover_with_co_pis(
    submission: SubmissionView,
    logo: Option<Seq<u8>>,
    date: Seq<char>,
)
    requires
        submission.co_pi matches Some(list) && list.len() > 0,
    ensures
        cover(submission, logo, date).contains(co_pi_label()),
{
    let head = cover_head(submission.project_title, submission.user);
    let part = co_pi_part(shown_emails(submission.co_pi));
    assert(shown_emails(submission.co_pi).len() > 0);
    assert(part[0] == co_pi_label());
    assert(cover(submission, logo, date)[head.len() as int] == part[0]);
}

/// The cover is a function of what the submission, the logo and the date
/// hold: two submissions of equal value have the same cover.
pub proof fn lemma_cover_is_determined(
    a: Submission,
    b: Submission,
    logo: Option<Seq<u8>>,
    date: Seq<char>,
)
    requires
        a.deep_view() == b.deep_view(),
    ensures
        cover(a.deep_view(), logo, date) == cover(b.deep_view(), logo, date),
{
}

} // verus!
