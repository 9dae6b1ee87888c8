use vstd::prelude::*;
use crate::model::{record_views, ArxivResult, RecordModel};
use crate::text::{json_string, json_text};

verus! {

/// The instruction sent to a provider ahead of each abstract.
pub const PROMPT: &'static str = "Act as a research assistant that specializes in machine learning. You are supposed to analyze and summarize research paper abstracts to post on a research community newsletter. When teh user provides you with an abstract, write a three sentence summary of the abstract. The summary must be concise, focused on what new things the research tackles, some of the technical details related to the research, and the key resulting findings of the research. Remember, the summary must be concise.";

/// The model that the chat-completion provider is asked for.
pub const OPENAI_MODEL: &'static str = "gpt-4o-mini";

/// The model that the invoke-style provider is asked for; its input schema is
/// the one `ModelInput` writes.
pub const BEDROCK_MODEL_ID: &'static str = "us.amazon.nova-lite-v1:0";

/// A failure reported by or about a provider.
#[derive(Debug)]
pub struct AgentError {
    pub message: String,
}

impl AgentError {
    pub fn new(message: &str) -> (r: AgentError)
        ensures
            r.message@ == message@,
    {
        AgentError { message: String::from_str(message) }
    }
}

/// Why one record was not enriched.
#[derive(Debug)]
pub enum EnrichError {
    /// The provider call itself failed.
    ProviderRejected(AgentError),
    /// The provider's answer did not have the expected shape.
    MalformedResponse(AgentError),
    /// The provider answered with empty text.
    EmptyOutput,
    /// The task that enriched the record did not complete.
    TaskFailure(AgentError),
}

pub open spec fn enrich_error_text(e: EnrichError) -> Seq<char> {
    match e {
        EnrichError::ProviderRejected(a) => "provider error: "@ + a.message@,
        EnrichError::MalformedResponse(a) => "malformed response: "@ + a.message@,
        EnrichError::EmptyOutput => "summary is empty"@,
        EnrichError::TaskFailure(a) => "task failure: "@ + a.message@,
    }
}

impl EnrichError {
    /// The line reported for this failure.
    pub fn message(&self) -> (r: String)
        ensures
            r@ == enrich_error_text(*self),
    {
        match self {
            EnrichError::ProviderRejected(a) => {
                let mut r = String::from_str("provider error: ");
                r.append(a.message.as_str());
                r
            },
            EnrichError::MalformedResponse(a) => {
                let mut r = String::from_str("malformed response: ");
                r.append(a.message.as_str());
                r
            },
            EnrichError::EmptyOutput => String::from_str("summary is empty"),
            EnrichError::TaskFailure(a) => {
                let mut r = String::from_str("task failure: ");
                r.append(a.message.as_str());
                r
            },
        }
    }
}

/// Replaces the summary of `data` with `output`, unless `output` is empty.
pub fn merge_output(data: ArxivResult, output: String) -> (r: Result<ArxivResult, EnrichError>)
    ensures
        output@.len() == 0 <==> r is Err,
        r is Err ==> r->Err_0 is EmptyOutput,
        r is Ok ==> r->Ok_0@ == (RecordModel { summary: output@, ..data@ }),
        r is Ok ==> r->Ok_0.published == data.published,
{
    if output.as_str().is_empty() {
        Err(EnrichError::EmptyOutput)
    } else {
        Ok(data.with_summary(output))
    }
}

/// The chat-completion provider's answer for `data`: the text of its first
/// choice, `None` when it has no choice or the choice has no text.
pub fn merge_completion(data: ArxivResult, content: Option<String>) -> (r: Result<
    ArxivResult,
    EnrichError,
>)
    ensures
        match content {
            None => r matches Err(EnrichError::MalformedResponse(_)),
            Some(text) => {
                &&& text@.len() == 0 <==> r is Err
                &&& r is Err ==> r->Err_0 is EmptyOutput
                &&& r is Ok ==> r->Ok_0@ == (RecordModel { summary: text@, ..data@ })
            },
        },
{
    match content {
        None => Err(EnrichError::MalformedResponse(AgentError::new("No completion"))),
        Some(text) => merge_output(data, text),
    }
}

/// A block of text in an invoke-style request or answer.
#[derive(Debug)]
pub struct BedrockText {
    pub text: String,
}

/// The message of an invoke-style answer.
#[derive(Debug)]
pub struct ModelMessage {
    pub content: Vec<BedrockText>,
    pub role: String,
}

#[derive(Debug)]
pub struct ModelOutput {
    pub message: ModelMessage,
}

#[derive(Debug)]
pub struct ModelUsage {
    pub input_tokens: u32,
    pub output_tokens: u32,
    pub total_tokens: u32,
}

/// An invoke-style answer.
#[derive(Debug)]
pub struct ModelResponse {
    pub output: ModelOutput,
    pub stop_reason: String,
    pub usage: ModelUsage,
}

/// The text of the first content block, empty when there is none.
pub open spec fn first_text(content: Seq<BedrockText>) -> Seq<char> {
    if content.len() > 0 {
        content[0].text@
    } else {
        Seq::empty()
    }
}

impl ModelResponse {
    /// The text of the first content block of the output message, or the empty
    /// text.
    pub fn get_output(self) -> (r: String)
        ensures
            r@ == first_text(self.output.message.content@),
    {
        let mut content = self.output.message.content;
        if content.len() > 0 {
            let first = content.swap_remove(0);
            first.text
        } else {
            String::new()
        }
    }

    /// `data` with the answer's text as its summary; empty text is a failure.
    pub fn combine_arxiv(self, data: ArxivResult) -> (r: Result<ArxivResult, EnrichError>)
        ensures
            first_text(self.output.message.content@).len() == 0 <==> r is Err,
            r is Err ==> r->Err_0 is EmptyOutput,
            r is Ok ==> r->Ok_0@ == (RecordModel {
                summary: first_text(self.output.message.content@),
                ..data@
            }),
    {
        let summary = self.get_output();
        merge_output(data, summary)
    }
}

/// The body of an invoke-style request: the system text and one user message, with
/// the fixed inference settings.
pub open spec fn bedrock_body(system: Seq<char>, content: Seq<char>) -> Seq<char> {
    "{\"system\":[{\"text\":"@ + json_text(system) + "}],\"messages\":[{\"role\":\"user\",\"content\":[{\"text\":"@
        + json_text(content)
        + "}]}],\"inferenceConfig\":{\"max_new_tokens\":150,\"top_p\":0.9,\"top_k\":20,\"temperature\":0.5}}"@
}

/// An invoke-style request: the instruction and the text to summarize.
#[derive(Debug)]
pub struct ModelInput {
    pub system: String,
    pub content: String,
}

impl ModelInput {
    pub fn new(system: &str, content: &str) -> (r: ModelInput)
        ensures
            r.system@ == system@,
            r.content@ == content@,
    {
        ModelInput { system: String::from_str(system), content: String::from_str(content) }
    }

    /// A request with the library's instruction.
    pub fn default(content: &str) -> (r: ModelInput)
        ensures
            r.system@ == PROMPT@,
            r.content@ == content@,
    {
        Self::new(PROMPT, content)
    }

    /// The JSON body of the request.
    pub fn to_json(&self) -> (r: String)
        ensures
            r@ == bedrock_body(self.system@, self.content@),
    {
        let mut r = String::from_str("{\"system\":[{\"text\":");
        r.append(json_string(self.system.as_str()).as_str());
        r.append("}],\"messages\":[{\"role\":\"user\",\"content\":[{\"text\":");
        r.append(json_string(self.content.as_str()).as_str());
        r.append(
            "}]}],\"inferenceConfig\":{\"max_new_tokens\":150,\"top_p\":0.9,\"top_k\":20,\"temperature\":0.5}}",
        );
        r
    }
}

/// The records that were enriched, in input order.
pub open spec fn successes(o: Seq<Result<ArxivResult, EnrichError>>) -> Seq<RecordModel>
    decreases o.len(),
{
    if o.len() == 0 {
        Seq::empty()
    } else {
        successes(o.drop_last()) + match o.last() {
            Ok(r) => seq![r@],
            Err(_) => Seq::empty(),
        }
    }
}

/// The failures, in input order.
pub open spec fn failures(o: Seq<Result<ArxivResult, EnrichError>>) -> Seq<EnrichError>
    decreases o.len(),
{
    if o.len() == 0 {
        Seq::empty()
    } else {
        failures(o.drop_last()) + match o.last() {
            Ok(_) => Seq::empty(),
            Err(e) => seq![e],
        }
    }
}

/// What a batch of enrichment tasks gives: the records that were enriched, and
/// one failure for each record that was dropped.
#[derive(Debug)]
pub struct EnrichReport {
    pub records: Vec<ArxivResult>,
    pub failures: Vec<EnrichError>,
}

/// Gathers the outcomes of a batch, one per input record and in input order: the
/// enriched records keep that order, and each failed record is left out and
/// reported once.
pub fn collect_outcomes(outcomes: Vec<Result<ArxivResult, EnrichError>>) -> (r: EnrichReport)
    ensures
        record_views(r.records@) == successes(outcomes@),
        r.failures@ == failures(outcomes@),
{
    let ghost o = outcomes@;
    let mut outcomes = outcomes;
    let n = outcomes.len();
    let mut records: Vec<ArxivResult> = Vec::new();
    let mut errors: Vec<EnrichError> = Vec::new();
    let mut k: usize = 0;
    assert(record_views(records@) =~= successes(o.take(0)));
    assert(errors@ =~= failures(o.take(0)));
    while k < n
        invariant
            n == outcomes@.len(),
            n == o.len(),
            k <= n,
            forall|j: int| k <= j < n ==> #[trigger] outcomes@[j] == o[j],
            record_views(records@) == successes(o.take(k as int)),
            errors@ == failures(o.take(k as int)),
        decreases n - k,
    {
        let mut item: Result<ArxivResult, EnrichError> = Err(EnrichError::EmptyOutput);
        std::mem::swap(&mut item, &mut outcomes[k]);
        assert(o.take(k + 1).drop_last() =~= o.take(k as int));
        assert(o.take(k + 1).last() == item);
        let ghost before = record_views(records@);
        match item {
            Ok(r) => {
                records.push(r);
                assert(record_views(records@) =~= before + seq![r@]);
                assert(errors@ =~= errors@ + Seq::<EnrichError>::empty());
            },
            Err(e) => {
                errors.push(e);
                assert(record_views(records@) =~= before + Seq::<RecordModel>::empty());
            },
        }
        k = k + 1;
    }
    assert(o.take(n as int) =~= o);
    EnrichReport { records, failures: errors }
}

/// Every outcome of a batch is counted once: as an enriched record or as a
/// failure.
pub proof fn lemma_outcomes_partition(o: Seq<Result<ArxivResult, EnrichError>>)
    ensures
        successes(o).len() + failures(o).len() == o.len(),
    decreases o.len(),
{
    if o.len() > 0 {
        lemma_outcomes_partition(o.drop_last());
    }
}

} // verus!

verus! {

proof fn lemma_all_ok(o: Seq<Result<ArxivResult, EnrichError>>)
    requires
        forall|j: int| 0 <= j < o.len() ==> #[trigger] o[j] is Ok,
    ensures
        successes(o).len() == o.len(),
        failures(o) == Seq::<EnrichError>::empty(),
    decreases o.len(),
{
    if o.len() > 0 {
        assert forall|j: int| 0 <= j < o.drop_last().len() implies #[trigger] o.drop_last()[j] is Ok by {
            assert(o.drop_last()[j] == o[j]);
        }
        lemma_all_ok(o.drop_last());
        assert(o.last() is Ok);
        assert(failures(o) =~= failures(o.drop_last()));
    }
}

/// A batch in which only the task at `i` fails gives one record fewer than it was
/// handed, and exactly one failure: that task's.
pub proof fn lemma_single_failure(o: Seq<Result<ArxivResult, EnrichError>>, i: int)
    requires
        0 <= i < o.len(),
        o[i] is Err,
        forall|j: int| 0 <= j < o.len() && j != i ==> #[trigger] o[j] is Ok,
    ensures
        successes(o).len() == o.len() - 1,
        failures(o) == seq![o[i]->Err_0],
    decreases o.len(),
{
    let d = o.drop_last();
    if i == o.len() - 1 {
        assert forall|j: int| 0 <= j < d.len() implies #[trigger] d[j] is Ok by {
            assert(d[j] == o[j]);
        }
        lemma_all_ok(d);
        assert(failures(o) =~= seq![o[i]->Err_0]);
    } else {
        assert(d[i] == o[i]);
        assert forall|j: int| 0 <= j < d.len() && j != i implies #[trigger] d[j] is Ok by {
            assert(d[j] == o[j]);
        }
        lemma_single_failure(d, i);
        assert(o.last() == o[o.len() - 1]);
        assert(failures(o) =~= failures(d));
    }
}

} // verus!
