//! Resolving the index page into candidates, and a detail page into an icon.

use vstd::prelude::*;
use vstd::string::StringExecFns;
use crate::error::outcome_view;
use crate::error::Mismatch;
use crate::error::ScrapeError;
use crate::error::ScrapeErrorView;
use crate::fetch::check_reply;
use crate::fetch::is_success;
use crate::fetch::reply_outcome;
use crate::fetch::FetchReply;
use crate::fetch::FetchReplyView;
use crate::hex::extract_hex_code;
use crate::hex::first_hex_literal;
use crate::hex::is_hex_literal;
use crate::html::code_sample;
use crate::html::find_code_sample;
use crate::html::fault_free;
use crate::html::icon_entries;
use crate::html::index_entries;
use crate::html::lemma_first_fault_none;
use crate::html::EntryView;
use crate::html::list_constant_nodes;
use crate::html::listing;
use crate::model::Candidate;
use crate::model::CandidateView;
use crate::model::Icon;
use crate::model::IconView;

verus! {

/// Address of the index page.
pub const INDEX_URL: &'static str =
    "https://api.flutter.dev/flutter/cupertino/CupertinoIcons-class.html";

/// Address that the links of the index page are relative to.
pub const DETAIL_BASE: &'static str = "https://api.flutter.dev/flutter/";

/// A candidate with its link made absolute.
pub open spec fn absolute(c: CandidateView) -> CandidateView {
    CandidateView { name: c.name, link: DETAIL_BASE@ + c.link }
}

/// What the reply to the request for the index page comes to: the failure
/// of the fetch; or what the page lacks; or the candidates of the page in
/// page order, each with an absolute link.
pub open spec fn index_outcome(reply: FetchReplyView) -> Result<Seq<CandidateView>, ScrapeErrorView> {
    match reply_outcome(INDEX_URL@, reply) {
        Err(e) => Err(e),
        Ok(page) => match listing(index_entries(page)) {
            Err(what) => Err(ScrapeErrorView::StructuralMismatch(what)),
            Ok(listed) => Ok(listed.map_values(|c: CandidateView| absolute(c))),
        },
    }
}

/// What a code sample comes to for a candidate: its first hexadecimal
/// literal under the candidate's name, or the reason why there is no icon.
/// An icon needs a name: where the sample holds a literal and the candidate
/// has no name, the entry it came from was not laid out as expected.
pub open spec fn sample_outcome(c: CandidateView, sample: Option<Seq<char>>) -> Result<
    IconView,
    ScrapeErrorView,
> {
    match sample {
        None => Err(ScrapeErrorView::CodeBlockNotFound { url: c.link }),
        Some(text) => match first_hex_literal(text) {
            None => Err(ScrapeErrorView::HexNotParsed { url: c.link }),
            Some(code) => if c.name.len() == 0 {
                Err(ScrapeErrorView::StructuralMismatch(Mismatch::Name))
            } else {
                Ok(IconView { name: c.name, code })
            },
        },
    }
}

/// What the reply to the request for a candidate's detail page comes to.
pub open spec fn detail_outcome(c: CandidateView, reply: FetchReplyView) -> Result<
    IconView,
    ScrapeErrorView,
> {
    match reply_outcome(c.link, reply) {
        Err(e) => Err(e),
        Ok(page) => sample_outcome(c, code_sample(page)),
    }
}

/// Of an index page that came with success and is laid out as expected,
/// the candidates are exactly the entries whose name is not reserved, in
/// page order, each with [`DETAIL_BASE`] before its link, wherever in the
/// page the reserved names stand.
pub proof fn lemma_index_lists_icon_entries(status: u16, page: Seq<char>, entries: Seq<EntryView>)
    requires
        is_success(status),
        index_entries(page) == Some(entries),
        fault_free(entries),
    ensures
        index_outcome(FetchReplyView::Answered { status, body: page }) == Ok::<
            Seq<CandidateView>,
            ScrapeErrorView,
        >(icon_entries(entries).map_values(|c: CandidateView| absolute(c))),
{
    lemma_first_fault_none(entries);
}

/// Makes the links of the listed candidates absolute, keeping their order.
pub fn absolute_candidates(listed: &Vec<Candidate>) -> (joined: Vec<Candidate>)
    ensures
        joined.deep_view() == listed.deep_view().map_values(|c: CandidateView| absolute(c)),
{
    let mut joined: Vec<Candidate> = Vec::new();
    let mut i: usize = 0;
    while i < listed.len()
        invariant
            i <= listed.len(),
            joined.len() == i,
            forall|k: int| 0 <= k < i ==> (#[trigger] joined[k])@ == absolute(listed[k]@),
        decreases listed.len() - i,
    {
        joined.push(listed[i].joined_to(DETAIL_BASE));
        i = i + 1;
    }
    assert(joined.deep_view() =~= listed.deep_view().map_values(|c: CandidateView| absolute(c)));
    joined
}

/// Resolves the index: takes the page out of the reply to the request for
/// [`INDEX_URL`], lists its candidates and makes their links absolute.
pub fn index_candidates(reply: FetchReply) -> (resolved: Result<Vec<Candidate>, ScrapeError>)
    ensures
        outcome_view(resolved) == index_outcome(reply@),
{
    match check_reply(INDEX_URL, reply) {
        Err(e) => Err(e),
        Ok(page) => match list_constant_nodes(&page) {
            Err(e) => Err(e),
            Ok(listed) => Ok(absolute_candidates(&listed)),
        },
    }
}

/// Puts a candidate's name to a code, where the candidate has a name.
fn name_icon(candidate: &Candidate, code: String) -> (made: Result<Icon, ScrapeError>)
    requires
        is_hex_literal(code@),
    ensures
        match made {
            Ok(icon) => candidate@.name.len() > 0 && icon@ == (IconView {
                name: candidate@.name,
                code: code@,
            }) && icon@.valid(),
            Err(e) => candidate@.name.len() == 0 && e@ == ScrapeErrorView::StructuralMismatch(
                Mismatch::Name,
            ),
        },
{
    let name = String::from_str(candidate.name());
    if name.as_str().is_empty() {
        Err(ScrapeError::StructuralMismatch(Mismatch::Name))
    } else {
        Ok(Icon::assemble(name, code))
    }
}

/// Makes the icon of a candidate from the code sample of its detail page:
/// the candidate's name with the first hexadecimal literal of the sample.
/// Without a sample the outcome is `CodeBlockNotFound`, with a sample that
/// holds no literal it is `HexNotParsed`, each with the candidate's link;
/// for a candidate without a name it is then a structural mismatch.
pub fn icon_from_sample(candidate: &Candidate, sample: Option<String>) -> (made: Result<
    Icon,
    ScrapeError,
>)
    ensures
        outcome_view(made) == sample_outcome(candidate@, sample.deep_view()),
        made matches Ok(icon) ==> icon@.valid(),
{
    match sample {
        None => Err(ScrapeError::CodeBlockNotFound { url: String::from_str(candidate.link()) }),
        Some(text) => match extract_hex_code(text.as_str()) {
            None => Err(ScrapeError::HexNotParsed { url: String::from_str(candidate.link()) }),
            Some(code) => name_icon(candidate, code),
        },
    }
}

/// Resolves one candidate from the reply to the request for its detail
/// page: the failure of the fetch, or what the page's code sample comes to.
pub fn resolve_detail(candidate: &Candidate, reply: FetchReply) -> (resolved: Result<
    Icon,
    ScrapeError,
>)
    ensures
        outcome_view(resolved) == detail_outcome(candidate@, reply@),
        resolved matches Ok(icon) ==> icon@.valid(),
{
    match check_reply(candidate.link(), reply) {
        Err(e) => Err(e),
        Ok(page) => icon_from_sample(candidate, find_code_sample(&page)),
    }
}

} // verus!
