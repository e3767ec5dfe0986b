use vstd::prelude::*;

use crate::chat_data::{ChatData, opt_view};
use crate::files::{IngestError, StoredFile, ingest_error_text};
use crate::message::HttpReply;

verus! {

/// One call to the messaging platform.
pub enum PlatformCall {
    /// Send `text` to `chat`, read as HTML.
    SendText { chat: String, text: String },
    /// Send the file stored at `path` to `chat` as a document.
    SendDocument { chat: String, path: String },
}

/// A platform call as a value of the model.
pub enum CallView {
    Text(Seq<char>, Seq<char>),
    Document(Seq<char>, Seq<char>),
}

pub open spec fn call_view(c: PlatformCall) -> CallView {
    match c {
        PlatformCall::SendText { chat, text } => CallView::Text(chat@, text@),
        PlatformCall::SendDocument { chat, path } => CallView::Document(chat@, path@),
    }
}

/// How forwarding a request ended.
pub enum ForwardOutcome {
    /// The text, if any, and every file were delivered.
    Delivered,
    /// The text could not be sent; no file was tried.
    TextFailed(String),
    /// Some files could not be sent: one error per failed file, in batch order.
    FilesFailed(Vec<String>),
}

pub enum OutcomeView {
    Delivered,
    TextFailed(Seq<char>),
    FilesFailed(Seq<Seq<char>>),
}

pub open spec fn strings_view(v: Seq<String>) -> Seq<Seq<char>> {
    v.map_values(|s: String| s@)
}

pub open spec fn outcome_view(o: ForwardOutcome) -> OutcomeView {
    match o {
        ForwardOutcome::Delivered => OutcomeView::Delivered,
        ForwardOutcome::TextFailed(e) => OutcomeView::TextFailed(e@),
        ForwardOutcome::FilesFailed(es) => OutcomeView::FilesFailed(strings_view(es@)),
    }
}

/// The answer to one call: `None` on success, else the error's text.
pub open spec fn result_view(r: Result<(), String>) -> Option<Seq<char>> {
    match r {
        Ok(_) => None,
        Err(e) => Some(e@),
    }
}

/// The calls that forwarding makes when every call succeeds: the text first,
/// if there is one, then each file in batch order.
pub open spec fn planned_calls(chat: Seq<char>, message: Option<Seq<char>>, paths: Seq<Seq<char>>) -> Seq<CallView> {
    let docs = paths.map_values(|p: Seq<char>| CallView::Document(chat, p));
    match message {
        Some(m) => seq![CallView::Text(chat, m)] + docs,
        None => docs,
    }
}

/// The error of the text send, when a text was sent and failed.
pub open spec fn text_failure(message: Option<Seq<char>>, results: Seq<Option<Seq<char>>>) -> Option<Seq<char>> {
    if message is Some && results.len() > 0 {
        results[0]
    } else {
        None
    }
}

/// The answers to the document sends.
pub open spec fn file_results(message: Option<Seq<char>>, results: Seq<Option<Seq<char>>>) -> Seq<Option<Seq<char>>> {
    if message is Some && results.len() > 0 {
        results.drop_first()
    } else if message is Some {
        Seq::empty()
    } else {
        results
    }
}

/// The errors among `results`, in order.
pub open spec fn errors_of(results: Seq<Option<Seq<char>>>) -> Seq<Seq<char>>
    decreases results.len(),
{
    if results.len() == 0 {
        Seq::empty()
    } else {
        match results.last() {
            Some(e) => errors_of(results.drop_last()).push(e),
            None => errors_of(results.drop_last()),
        }
    }
}

/// Forwarding is over once the text failed or every planned call was answered.
pub open spec fn forward_finished(chat: Seq<char>, message: Option<Seq<char>>, paths: Seq<Seq<char>>, results: Seq<Option<Seq<char>>>) -> bool {
    text_failure(message, results) is Some || results.len() >= planned_calls(chat, message, paths).len()
}

/// The outcome of forwarding, from the answers to the calls made.
pub open spec fn forward_outcome(message: Option<Seq<char>>, results: Seq<Option<Seq<char>>>) -> OutcomeView {
    match text_failure(message, results) {
        Some(e) => OutcomeView::TextFailed(e),
        None => {
            let errors = errors_of(file_results(message, results));
            if errors.len() == 0 {
                OutcomeView::Delivered
            } else {
                OutcomeView::FilesFailed(errors)
            }
        },
    }
}

pub open spec fn failed(r: Option<Seq<char>>) -> bool {
    r is Some
}

/// With no message and no files, forwarding is over before any call is made,
/// and it succeeds.
pub proof fn lemma_nothing_to_forward(chat: Seq<char>)
    ensures
        planned_calls(chat, None, Seq::empty()).len() == 0,
        forward_finished(chat, None, Seq::empty(), Seq::empty()),
        forward_outcome(None, Seq::empty()) == OutcomeView::Delivered,
{
    assert(errors_of(file_results(None, Seq::empty())) =~= Seq::empty());
}

/// There is one error for each failed answer, in order.
pub proof fn lemma_one_error_per_failure(results: Seq<Option<Seq<char>>>)
    ensures
        errors_of(results).len() == results.filter(|r: Option<Seq<char>>| failed(r)).len(),
        forall|i: int| 0 <= i < errors_of(results).len() ==> results.contains(Some(#[trigger] errors_of(results)[i])),
    decreases results.len(),
{
    reveal(Seq::filter);
    if results.len() > 0 {
        let init = results.drop_last();
        lemma_one_error_per_failure(init);
        assert forall|i: int| 0 <= i < errors_of(results).len() implies results.contains(Some(#[trigger] errors_of(results)[i])) by {
            if i < errors_of(init).len() {
                assert(errors_of(results)[i] == errors_of(init)[i]);
                let j = choose|j: int| 0 <= j < init.len() && init[j] == Some(errors_of(init)[i]);
                assert(results[j] == init[j]);
            } else {
                assert(results[results.len() - 1] == Some(errors_of(results)[i]));
            }
        }
    }
}

/// Once the text, if any, has been delivered, a failed file does not stop the
/// batch: every file is tried, and the outcome lists the errors of exactly the
/// files that failed, one entry each, in batch order.
pub proof fn lemma_file_failures_do_not_stop(
    chat: Seq<char>,
    message: Option<Seq<char>>,
    paths: Seq<Seq<char>>,
    results: Seq<Option<Seq<char>>>,
)
    requires
        results.len() <= planned_calls(chat, message, paths).len(),
        text_failure(message, results) is None,
    ensures
        results.len() < planned_calls(chat, message, paths).len() ==> !forward_finished(chat, message, paths, results),
        results.len() == planned_calls(chat, message, paths).len() ==> forward_outcome(message, results) == (
            if errors_of(file_results(message, results)).len() == 0 {
                OutcomeView::Delivered
            } else {
                OutcomeView::FilesFailed(errors_of(file_results(message, results)))
            }),
        errors_of(file_results(message, results)).len() == file_results(message, results).filter(|r: Option<Seq<char>>| failed(r)).len(),
{
    lemma_one_error_per_failure(file_results(message, results));
}

/// `items` with `sep` between each two.
pub open spec fn joined(items: Seq<Seq<char>>, sep: Seq<char>) -> Seq<char>
    decreases items.len(),
{
    if items.len() == 0 {
        Seq::empty()
    } else if items.len() == 1 {
        items[0]
    } else {
        joined(items.drop_last(), sep) + sep + items.last()
    }
}

pub open spec fn files_failed_prefix() -> Seq<char> {
    "Got the following errors: "@
}

/// Joins `items` with `sep` between each two.
pub fn join(items: &Vec<String>, sep: &str) -> (r: String)
    ensures
        r@ == joined(strings_view(items@), sep@),
{
    let mut acc = String::new();
    let mut i: usize = 0;
    while i < items.len()
        invariant
            i <= items.len(),
            acc@ == joined(strings_view(items@.take(i as int)), sep@),
        decreases items.len() - i,
    {
        let ghost before = items@.take(i as int);
        assert(strings_view(items@.take(i as int + 1)).drop_last() =~= strings_view(before));
        if i > 0 {
            acc = acc.concat(sep);
        } else {
            assert(acc@ =~= Seq::<char>::empty());
        }
        acc = acc.concat(items[i].as_str());
        i = i + 1;
        assert(acc@ =~= joined(strings_view(items@.take(i as int)), sep@));
    }
    assert(items@.take(items.len() as int) =~= items@);
    acc
}

/// The response to a file request, from the outcome of forwarding it.
pub fn forward_response(outcome: &ForwardOutcome) -> (r: HttpReply)
    ensures
        outcome is Delivered ==> r.status == 202 && r.body@.len() == 0,
        outcome matches ForwardOutcome::TextFailed(e) ==> r.status == 500 && r.body@ == e@,
        outcome matches ForwardOutcome::FilesFailed(es) ==> r.status == 500
            && r.body@ == files_failed_prefix() + joined(strings_view(es@), ", "@),
{
    match outcome {
        ForwardOutcome::Delivered => HttpReply { status: 202, body: String::new() },
        ForwardOutcome::TextFailed(e) => HttpReply { status: 500, body: e.clone() },
        ForwardOutcome::FilesFailed(es) => {
            let list = join(es, ", ");
            HttpReply { status: 500, body: String::from_str("Got the following errors: ").concat(list.as_str()) }
        },
    }
}

/// The response to a file request whose upload could not be taken in.
pub fn ingest_failure_response(e: &IngestError) -> (r: HttpReply)
    ensures
        r.status == 500,
        r.body@ == ingest_error_text(*e),
{
    HttpReply { status: 500, body: e.describe() }
}

/// What to do next in forwarding a request.
pub enum Step {
    /// Make this call and hand its answer back.
    Call(PlatformCall),
    /// Forwarding is over.
    Finished(ForwardOutcome),
}

/// Forwards a text and a batch of files to one chat. It makes no call itself:
/// it names the next call, is told its answer, and so on until it is done.
pub struct ForwardingGateway {
    chat: String,
    message: Option<String>,
    files: Vec<StoredFile>,
    text_answered: bool,
    files_answered: usize,
    text_error: Option<String>,
    errors: Vec<String>,
    results: Ghost<Seq<Option<Seq<char>>>>,
}

pub open spec fn paths_of(files: Seq<StoredFile>) -> Seq<Seq<char>> {
    files.map_values(|f: StoredFile| f.path@)
}

fn copy_strings(v: &Vec<String>) -> (r: Vec<String>)
    ensures
        strings_view(r@) == strings_view(v@),
{
    let mut r: Vec<String> = Vec::new();
    let mut i: usize = 0;
    while i < v.len()
        invariant
            i <= v.len(),
            r@ =~= v@.take(i as int),
        decreases v.len() - i,
    {
        let c = v[i].clone();
        r.push(c);
        assert(v@.take(i as int + 1) =~= v@.take(i as int).push(v@[i as int]));
        i = i + 1;
    }
    assert(v@.take(v.len() as int) =~= v@);
    r
}

/// Starts forwarding `chat_data`'s message, if any, and then `files`, to
/// `chat_data`'s chat.
pub fn send_file(chat_data: ChatData<Option<String>>, files: Vec<StoredFile>) -> (r: ForwardingGateway)
    ensures
        r.wf(),
        r.chat() == chat_data.chatid@,
        r.message() == opt_view(chat_data.message),
        r.paths() == paths_of(files@),
        r.results() == Seq::<Option<Seq<char>>>::empty(),
{
    let r = ForwardingGateway {
        chat: chat_data.chatid,
        message: chat_data.message,
        files,
        text_answered: false,
        files_answered: 0,
        text_error: None,
        errors: Vec::new(),
        results: Ghost(Seq::empty()),
    };
    assert(strings_view(r.errors@) =~= Seq::empty());
    assert(file_results(r.message(), r.results@) =~= Seq::empty());
    r
}

impl ForwardingGateway {
    /// The chat everything goes to.
    pub closed spec fn chat(&self) -> Seq<char> {
        self.chat@
    }

    /// The text to send before the files, if any.
    pub closed spec fn message(&self) -> Option<Seq<char>> {
        opt_view(self.message)
    }

    /// Where the files to send are stored, in batch order.
    pub closed spec fn paths(&self) -> Seq<Seq<char>> {
        paths_of(self.files@)
    }

    /// The answers to the calls made so far, in order.
    pub closed spec fn results(&self) -> Seq<Option<Seq<char>>> {
        self.results@
    }

    /// Nothing is left to send.
    pub open spec fn finished(&self) -> bool {
        forward_finished(self.chat(), self.message(), self.paths(), self.results())
    }

    /// The counters, the text's error and the list of file errors agree with
    /// the answers recorded so far.
    pub closed spec fn wf(&self) -> bool {
        &&& self.text_answered ==> self.message is Some
        &&& (self.message is Some && self.results@.len() > 0) ==> self.text_answered
        &&& self.results@.len() == (if self.text_answered { 1int } else { 0int }) + self.files_answered
        &&& self.results@.len() <= planned_calls(self.chat(), self.message(), self.paths()).len()
        &&& opt_view(self.text_error) == text_failure(self.message(), self.results@)
        &&& strings_view(self.errors@) == errors_of(file_results(self.message(), self.results@))
    }

    /// The next call to make, or the outcome once forwarding is over.
    pub fn next_step(&self) -> (r: Step)
        requires
            self.wf(),
        ensures
            self.finished() ==> (r matches Step::Finished(o)
                && outcome_view(o) == forward_outcome(self.message(), self.results())),
            !self.finished() ==> (r matches Step::Call(c)
                && call_view(c) == planned_calls(self.chat(), self.message(), self.paths())[self.results().len() as int]),
    {
        let ghost docs = self.paths().map_values(|p: Seq<char>| CallView::Document(self.chat(), p));
        if let Some(e) = &self.text_error {
            return Step::Finished(ForwardOutcome::TextFailed(e.clone()));
        }
        match &self.message {
            Some(m) => {
                if !self.text_answered {
                    return Step::Call(PlatformCall::SendText { chat: self.chat.clone(), text: m.clone() });
                }
                let k = self.files_answered;
                if k < self.files.len() {
                    assert(planned_calls(self.chat(), self.message(), self.paths())[k + 1] == docs[k as int]);
                    return Step::Call(PlatformCall::SendDocument { chat: self.chat.clone(), path: self.files[k].path.clone() });
                }
            },
            None => {
                let k = self.files_answered;
                if k < self.files.len() {
                    return Step::Call(PlatformCall::SendDocument { chat: self.chat.clone(), path: self.files[k].path.clone() });
                }
            },
        }
        if self.errors.len() == 0 {
            Step::Finished(ForwardOutcome::Delivered)
        } else {
            Step::Finished(ForwardOutcome::FilesFailed(copy_strings(&self.errors)))
        }
    }

    /// Takes the answer to the call that `next_step` named.
    pub fn record(&mut self, result: Result<(), String>)
        requires
            old(self).wf(),
            !old(self).finished(),
        ensures
            final(self).wf(),
            final(self).chat() == old(self).chat(),
            final(self).message() == old(self).message(),
            final(self).paths() == old(self).paths(),
            final(self).results() == old(self).results().push(result_view(result)),
    {
        let ghost old_results = self.results@;
        let ghost new_results = old_results.push(result_view(result));
        let ghost message = self.message();
        assert(planned_calls(self.chat(), message, self.paths()).len() == (if message is Some { 1int } else { 0int }) + self.files@.len());
        let text_pending = self.message.is_some() && !self.text_answered;
        if text_pending {
            self.text_answered = true;
            if let Err(e) = result {
                self.text_error = Some(e);
            }
            assert(file_results(message, new_results) =~= Seq::empty());
        } else {
            assert(file_results(message, new_results).drop_last() =~= file_results(message, old_results));
            assert(file_results(message, new_results).last() == result_view(result));
            if let Err(e) = result {
                self.errors.push(e);
                assert(strings_view(self.errors@) =~= strings_view(self.errors@.drop_last()).push(self.errors@.last()@));
                assert(self.errors@.drop_last() =~= old(self).errors@);
            }
        }
        if !text_pending {
            assert(old(self).results@.len() < planned_calls(self.chat(), message, self.paths()).len());
            let n = self.files.len();
            assert(self.files_answered < n);
            self.files_answered = self.files_answered + 1;
        }
        self.results = Ghost(new_results);
    }
}

} // verus!
