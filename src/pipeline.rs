use vstd::prelude::*;
use vstd::string::*;
use vstd::arithmetic::div_mod::lemma_fundamental_div_mod_converse;
use crate::json::Json;
use crate::provider::{assistant_role, is_message, message, system_role, user_role};
use crate::record::Instruction;

verus! {

/// How many dispatches a harvest keeps in flight unless told otherwise.
pub const DEFAULT_CONCURRENCY: usize = 10;

/// The system prompt under which a training pair is drawn from a chunk.
pub const EXTRACTION_SYSTEM_PROMPT: &'static str = "You are a highly skilled finetuning expert. You are provided with a prompt and a text and you need to extract a single instruction-response pair from the text that follows the prompt.";

/// The work list for a set of chunks and prompts: every chunk with every prompt,
/// chunk by chunk, each chunk's pairs in the order of the prompts.
pub fn create_chunk_prompt_pairs(chunks: &Vec<String>, prompts: &[String]) -> (r: Vec<(String, String)>)
    ensures
        r@.len() == chunks@.len() * prompts@.len(),
        forall|k: int| 0 <= k < r@.len() ==> {
            &&& (#[trigger] r@[k]).0@ == chunks@[k / prompts@.len() as int]@
            &&& r@[k].1@ == prompts@[k % prompts@.len() as int]@
        },
{
    let mut r: Vec<(String, String)> = Vec::new();
    let n = prompts.len();
    let mut i: usize = 0;
    while i < chunks.len()
        invariant
            i <= chunks@.len(),
            n == prompts@.len(),
            r@.len() == i * n,
            forall|k: int| 0 <= k < r@.len() ==> {
                &&& (#[trigger] r@[k]).0@ == chunks@[k / n as int]@
                &&& r@[k].1@ == prompts@[k % n as int]@
            },
        decreases chunks@.len() - i,
    {
        let mut j: usize = 0;
        while j < n
            invariant
                i < chunks@.len(),
                j <= n,
                n == prompts@.len(),
                r@.len() == i * n + j,
                forall|k: int| 0 <= k < r@.len() ==> {
                    &&& (#[trigger] r@[k]).0@ == chunks@[k / n as int]@
                    &&& r@[k].1@ == prompts@[k % n as int]@
                },
            decreases n - j,
        {
            proof {
                lemma_fundamental_div_mod_converse(i * n + j, n as int, i as int, j as int);
            }
            r.push((chunks[i].clone(), prompts[j].clone()));
            j = j + 1;
        }
        assert(i * n + n == (i + 1) * n) by (nonlinear_arith);
        i = i + 1;
    }
    r
}

/// The user prompt of one work item: its prompt, a blank line, then its chunk.
pub fn learning_prompt(prompt: &str, chunk: &str) -> (r: String)
    ensures
        r@ == prompt@ + seq!['\n', '\n'] + chunk@,
{
    let mut r = String::from_str(prompt);
    r.append("\n\n");
    r.append(chunk);
    proof {
        reveal_strlit("\n\n");
    }
    r
}

/// The stages of a harvest run.
#[derive(Clone, Copy, Debug, PartialEq, Eq, Structural)]
pub enum Phase {
    Idle,
    Dispatching,
    Draining,
    Done,
}

/// The scheduler of a harvest run over `total` work items, admitting at most
/// `limit` dispatches at a time. Items are admitted in order, each exactly once;
/// one whose dispatch fails is counted and the run goes on.
#[derive(Clone, Copy, Debug, PartialEq, Eq, Structural)]
pub struct Harvest {
    pub total: usize,
    pub limit: usize,
    /// Items handed out so far; the next one to hand out has this index.
    pub admitted: usize,
    pub in_flight: usize,
    pub succeeded: usize,
    pub failed: usize,
    pub phase: Phase,
}

impl Harvest {
    pub open spec fn completed(self) -> int {
        self.succeeded + self.failed
    }

    pub open spec fn wf(self) -> bool {
        &&& self.limit > 0
        &&& self.admitted <= self.total
        &&& self.in_flight <= self.limit
        &&& self.succeeded + self.failed + self.in_flight == self.admitted
        &&& (self.phase == Phase::Idle ==> self.admitted == 0)
        &&& (self.phase == Phase::Dispatching ==> !(self.admitted == self.total && self.in_flight == 0))
        &&& (self.phase == Phase::Draining || self.phase == Phase::Done) ==> self.admitted == self.total
            && self.in_flight == 0
    }

    /// A run over `total` items with at most `limit` in flight; none without a
    /// positive limit.
    pub fn new(total: usize, limit: usize) -> (r: Option<Harvest>)
        ensures
            limit == 0 <==> r is None,
            r matches Some(h) ==> h.wf() && h.total == total && h.limit == limit && h.phase == Phase::Idle
                && h.admitted == 0,
    {
        if limit == 0 {
            return None;
        }
        Some(Harvest { total, limit, admitted: 0, in_flight: 0, succeeded: 0, failed: 0, phase: Phase::Idle })
    }

    /// Starts dispatching; a run with no items goes straight to draining.
    pub fn begin(&mut self)
        requires
            old(self).wf(),
            old(self).phase == Phase::Idle,
        ensures
            final(self).wf(),
            final(self).phase == (if old(self).total == 0 { Phase::Draining } else { Phase::Dispatching }),
            final(self).admitted == 0,
            final(self).total == old(self).total,
            final(self).limit == old(self).limit,
            final(self).completed() == 0,
    {
        self.phase = if self.total == 0 { Phase::Draining } else { Phase::Dispatching };
    }

    /// Hands out the next item when a permit is free: its index, which is the
    /// number of items handed out before it.
    pub fn next_item(&mut self) -> (r: Option<usize>)
        requires
            old(self).wf(),
        ensures
            final(self).wf(),
            final(self).total == old(self).total,
            final(self).limit == old(self).limit,
            final(self).phase == old(self).phase,
            final(self).succeeded == old(self).succeeded,
            final(self).failed == old(self).failed,
            (old(self).phase == Phase::Dispatching && old(self).in_flight < old(self).limit
                && old(self).admitted < old(self).total) <==> r is Some,
            match r {
                Some(i) => i == old(self).admitted && final(self).admitted == old(self).admitted + 1
                    && final(self).in_flight == old(self).in_flight + 1,
                None => *final(self) == *old(self),
            },
            final(self).in_flight <= final(self).limit,
    {
        if self.phase == Phase::Dispatching && self.in_flight < self.limit && self.admitted < self.total {
            let i = self.admitted;
            self.admitted = self.admitted + 1;
            self.in_flight = self.in_flight + 1;
            Some(i)
        } else {
            None
        }
    }

    /// Records that one admitted dispatch ended, well or not. Once every item has
    /// been admitted and ended, the run drains.
    pub fn complete(&mut self, success: bool)
        requires
            old(self).wf(),
            old(self).phase == Phase::Dispatching,
            old(self).in_flight > 0,
        ensures
            final(self).wf(),
            final(self).total == old(self).total,
            final(self).limit == old(self).limit,
            final(self).admitted == old(self).admitted,
            final(self).in_flight == old(self).in_flight - 1,
            final(self).succeeded == old(self).succeeded + (if success { 1int } else { 0 }),
            final(self).failed == old(self).failed + (if success { 0int } else { 1 }),
            final(self).phase == (if final(self).admitted == final(self).total && final(self).in_flight == 0 {
                Phase::Draining
            } else {
                Phase::Dispatching
            }),
    {
        self.in_flight = self.in_flight - 1;
        if success {
            self.succeeded = self.succeeded + 1;
        } else {
            self.failed = self.failed + 1;
        }
        if self.admitted == self.total && self.in_flight == 0 {
            self.phase = Phase::Draining;
        }
    }

    /// Records that the sink was flushed; the run is done.
    pub fn flushed(&mut self)
        requires
            old(self).wf(),
            old(self).phase == Phase::Draining,
        ensures
            final(self).wf(),
            *final(self) == (Harvest { phase: Phase::Done, ..*old(self) }),
    {
        self.phase = Phase::Done;
    }

    /// Items whose dispatch ended, well or not.
    pub fn completed_count(&self) -> (r: usize)
        requires
            self.wf(),
        ensures
            r == self.completed(),
    {
        self.succeeded + self.failed
    }
}

/// A finished run has handed out every item exactly once and seen each of them
/// end: the completed count equals the number of items, split into successes and
/// failures.
pub proof fn lemma_done_accounts_for_all(h: Harvest)
    requires
        h.wf(),
        h.phase == Phase::Done,
    ensures
        h.admitted == h.total,
        h.completed() == h.total,
        h.in_flight == 0,
{
}

/// In every state of a run, the dispatches in flight are at most the limit.
pub proof fn lemma_in_flight_bounded(h: Harvest)
    requires
        h.wf(),
    ensures
        h.in_flight <= h.limit,
{
}

/// A dispatching run can always move on: an item can be admitted, or an admitted
/// one is still in flight and its end will be recorded.
pub proof fn lemma_dispatching_progresses(h: Harvest)
    requires
        h.wf(),
        h.phase == Phase::Dispatching,
    ensures
        (h.in_flight < h.limit && h.admitted < h.total) || h.in_flight > 0,
{
}

/// The system message of every record written to the sink.
pub const RECORD_SYSTEM_PROMPT: &'static str = "You are a highly intelligent, creative and helpful AI assistant.";

/// The system prompt under which a use case is turned into prompts.
pub const TUNING_SYSTEM_PROMPT: &'static str = "You are a highly skilled and experienced LLM finetuning expert. You are provided with a use case and some examples and you need to generate prompts for that use case";

/// What the tuning request says before the use case.
pub const TUNING_PROMPT_HEAD: &'static str = "Write a set of distinct instruction-generation prompts for the following use case. Each prompt should ask for one instruction and its ideal response, drawn from a passage of text that will be given with it.\n\nUse case: ";

/// What the tuning request says after the use case.
pub const TUNING_PROMPT_TAIL: &'static str = "\n\nAnswer with a JSON object whose member \"prompts\" is an array of the prompts.";

/// The user prompt that asks the model for prompts suited to a use case.
pub fn tuning_prompt(use_case: &str) -> (r: String)
    ensures
        r@ == TUNING_PROMPT_HEAD@ + use_case@ + TUNING_PROMPT_TAIL@,
{
    let mut r = String::from_str(TUNING_PROMPT_HEAD);
    r.append(use_case);
    r.append(TUNING_PROMPT_TAIL);
    r
}

/// The record written to the sink for one training pair: a chat of a system
/// message, the instruction as the user's turn and the response as the
/// assistant's.
pub fn training_record(instruction: &Instruction) -> (r: Json)
    ensures
        r matches Json::Object(fs) && fs@.len() == 1 && fs@[0].0@ == "messages"@
            && (fs@[0].1 matches Json::Array(ms) && ms@.len() == 3
            && is_message(ms@[0], system_role(), RECORD_SYSTEM_PROMPT@)
            && is_message(ms@[1], user_role(), instruction.instruction@)
            && is_message(ms@[2], assistant_role(), instruction.response@)),
{
    let messages = vec![
        message("system", RECORD_SYSTEM_PROMPT),
        message("user", instruction.instruction.as_str()),
        message("assistant", instruction.response.as_str()),
    ];
    proof {
        reveal_strlit("system");
        reveal_strlit("user");
        reveal_strlit("assistant");
    }
    Json::Object(vec![(String::from_str("messages"), Json::Array(messages))])
}

} // verus!
