use assimilator::input::{create_pairs, prepare_chunk_prompt_pairs, split_documents, FileInputAdapter};
use assimilator::json::{get_field, Json};
use assimilator::pipeline::{
    create_chunk_prompt_pairs, learning_prompt, training_record, tuning_prompt, Harvest, Phase,
    DEFAULT_CONCURRENCY, RECORD_SYSTEM_PROMPT, TUNING_PROMPT_HEAD, TUNING_PROMPT_TAIL,
};
use assimilator::record::Instruction;

fn s(x: &str) -> String {
    x.to_string()
}

#[test]
fn pairs_are_the_cross_product_chunk_by_chunk() {
    let chunks = vec![s("chunk one"), s("chunk two")];
    let prompts = vec![s("ask one"), s("ask two"), s("ask three")];
    let r = create_chunk_prompt_pairs(&chunks, &prompts);
    assert_eq!(
        r,
        vec![
            (s("chunk one"), s("ask one")),
            (s("chunk one"), s("ask two")),
            (s("chunk one"), s("ask three")),
            (s("chunk two"), s("ask one")),
            (s("chunk two"), s("ask two")),
            (s("chunk two"), s("ask three")),
        ]
    );
}

#[test]
fn pairs_of_nothing() {
    assert!(create_chunk_prompt_pairs(&vec![], &[s("p")]).is_empty());
    assert!(create_chunk_prompt_pairs(&vec![s("c")], &[]).is_empty());
}

#[test]
fn user_prompt_puts_a_blank_line_between() {
    assert_eq!(learning_prompt("Ask", "Text"), "Ask\n\nText");
}

#[test]
fn tuning_prompt_holds_the_use_case() {
    let r = tuning_prompt("Poetry");
    assert_eq!(r, format!("{}Poetry{}", TUNING_PROMPT_HEAD, TUNING_PROMPT_TAIL));
}

#[test]
fn record_is_a_three_turn_chat() {
    let i = Instruction { instruction: s("Q"), response: s("A") };
    let r = training_record(&i);
    let msg = |role: &str, content: &str| {
        Json::Object(vec![(s("role"), Json::Str(s(role))), (s("content"), Json::Str(s(content)))])
    };
    assert_eq!(
        get_field(&r, "messages"),
        Some(&Json::Array(vec![msg("system", RECORD_SYSTEM_PROMPT), msg("user", "Q"), msg("assistant", "A")]))
    );
}

#[test]
fn splitter_cuts_documents_in_order() {
    let docs = vec![s("Some text\n\nfrom a\ndocument"), s("short")];
    let r = split_documents(&docs, 10);
    assert_eq!(r, vec![s("Some text"), s("from a"), s("document"), s("short")]);
    let a = FileInputAdapter::new(std::path::PathBuf::from("./input"), 10);
    assert_eq!(a.chunk_documents(&docs), r);
}

#[test]
fn work_list_from_documents() {
    let docs = vec![s("Some text\n\nfrom a\ndocument")];
    let prompts = vec![s("p")];
    let r = create_pairs(&docs, 10, &prompts);
    assert_eq!(r, vec![(s("Some text"), s("p")), (s("from a"), s("p")), (s("document"), s("p"))]);
    assert_eq!(prepare_chunk_prompt_pairs(&docs, 10, &prompts), r);
}

/// Drives a run the way the harvest loop does, finishing the oldest dispatch in
/// flight whenever no item can be handed out.
fn drive(total: usize, limit: usize, fails_every: usize) -> (Harvest, Vec<usize>, usize) {
    let mut h = Harvest::new(total, limit).unwrap();
    h.begin();
    let mut handed = Vec::new();
    let mut in_flight = std::collections::VecDeque::new();
    let mut peak = 0;
    while h.phase == Phase::Dispatching {
        match h.next_item() {
            Some(i) => {
                handed.push(i);
                in_flight.push_back(i);
                peak = peak.max(h.in_flight);
            }
            None => {
                let i = in_flight.pop_front().unwrap();
                h.complete(fails_every == 0 || i % fails_every != 0);
            }
        }
    }
    h.flushed();
    (h, handed, peak)
}

#[test]
fn every_item_is_handed_out_once_and_completed() {
    let (h, handed, peak) = drive(25, DEFAULT_CONCURRENCY, 0);
    assert_eq!(handed, (0..25).collect::<Vec<_>>());
    assert_eq!(h.phase, Phase::Done);
    assert_eq!(h.completed_count(), 25);
    assert_eq!(h.succeeded, 25);
    assert_eq!(peak, 10);
}

#[test]
fn failures_are_counted_and_the_run_goes_on() {
    let (h, handed, peak) = drive(7, 3, 2);
    assert_eq!(handed.len(), 7);
    assert_eq!(h.phase, Phase::Done);
    assert_eq!(h.failed, 4);
    assert_eq!(h.succeeded, 3);
    assert_eq!(h.completed_count(), 7);
    assert!(peak <= 3);
}

#[test]
fn empty_run_drains_at_once() {
    let mut h = Harvest::new(0, 10).unwrap();
    h.begin();
    assert_eq!(h.phase, Phase::Draining);
    assert_eq!(h.next_item(), None);
    h.flushed();
    assert_eq!(h.phase, Phase::Done);
    assert_eq!(h.completed_count(), 0);
}

#[test]
fn zero_limit_is_refused() {
    assert!(Harvest::new(5, 0).is_none());
}

#[test]
fn full_permits_hold_back_the_next_item() {
    let mut h = Harvest::new(5, 2).unwrap();
    h.begin();
    assert_eq!(h.next_item(), Some(0));
    assert_eq!(h.next_item(), Some(1));
    assert_eq!(h.next_item(), None);
    h.complete(true);
    assert_eq!(h.next_item(), Some(2));
}
