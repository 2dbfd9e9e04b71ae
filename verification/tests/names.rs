use inference_router::names::{
    normalize_model, normalize_name, presence_subject, presence_topic, response_filter,
    response_queue, response_subject, response_topic, work_queue, worker_queue, Surface,
};

fn admitted(name: &str) -> bool {
    let n = name.chars().count();
    (1..=64).contains(&n)
        && name.chars().all(|c| c.is_ascii_alphanumeric() || c == '_' || c == '-')
}

#[test]
fn model_names_are_normalized() {
    assert_eq!(normalize_model("llama3.2:1b"), "llama3-2-1b");
    assert_eq!(normalize_model("org/model name"), "org-model-name");
    assert_eq!(normalize_model("Phi_3-mini"), "Phi_3-mini");
    assert_eq!(normalize_model("modèle+x"), "modèle+x");
    assert_eq!(normalize_model(""), "");
}

#[test]
fn resource_names_are_normalized() {
    assert_eq!(normalize_name("llama3.2:1b"), "llama3-2-1b");
    assert_eq!(normalize_name("modèle+x"), "mod-le-x");
    assert_eq!(normalize_name(""), "");
    assert_eq!(normalize_name(&"é".repeat(70)), "-".repeat(64));
    assert_eq!(normalize_name(&"a".repeat(64)), "a".repeat(64));
    assert_eq!(normalize_name(&"a".repeat(65)), "a".repeat(64));
}

#[test]
fn normal_forms_are_stable() {
    for m in ["llama3.2:1b", "a/b c", "modèle+x", "..::"] {
        assert_eq!(normalize_model(&normalize_model(m)), normalize_model(m));
        assert_eq!(normalize_name(&normalize_name(m)), normalize_name(m));
        assert!(admitted(&normalize_name(m)));
        assert!(!normalize_model(m).contains([':', '.', '/', ' ']));
    }
}

#[test]
fn router_and_worker_share_the_work_queue_of_plain_models() {
    assert_eq!(work_queue(Surface::Flat, "llama3.2:1b"), "inference_req_llama3-2-1b");
    assert_eq!(worker_queue("llama3.2:1b"), "inference_req_llama3-2-1b");
    assert_ne!(work_queue(Surface::Flat, "modèle"), worker_queue("modèle"));
    let long = "m".repeat(65);
    assert_ne!(work_queue(Surface::Flat, &long), worker_queue(&long));
}

#[test]
fn queue_names_are_admitted_up_to_fifty_characters_of_model() {
    assert!(admitted(&worker_queue(&"m".repeat(50))));
    assert!(!admitted(&worker_queue(&"m".repeat(51))));
    assert!(admitted(&work_queue(Surface::Flat, &"m".repeat(50))));
    assert!(admitted(&response_queue(Surface::Flat, &"c".repeat(49))));
    assert!(admitted(&response_topic(Surface::Flat)));
    assert!(admitted(&presence_topic()));
}

#[test]
fn dotted_names() {
    assert_eq!(work_queue(Surface::Dotted, "llama3.2:1b"), "inference.llama3-2-1b.req");
    assert_eq!(response_queue(Surface::Dotted, "corr_1"), "inference.resp.corr_1");
    assert_eq!(response_topic(Surface::Dotted), "inference.responses");
}

#[test]
fn flat_names() {
    assert_eq!(response_queue(Surface::Flat, "corr_1"), "inference_resp_corr_1");
    assert_eq!(response_topic(Surface::Flat), "inference_responses");
    assert_eq!(presence_topic(), "worker_presence");
}

#[test]
fn subjects_and_filters() {
    assert_eq!(response_subject("corr_1", "token"), "inference.corr_1.token");
    assert_eq!(response_filter("corr_1"), "inference.corr_1.*");
    assert_eq!(presence_subject("wkr_1", "llama3-2-1b"), "presence.wkr_1.llama3-2-1b");
}

fn selects(filter: &str, subject: &str) -> bool {
    let f: Vec<&str> = filter.split('.').collect();
    let s: Vec<&str> = subject.split('.').collect();
    f.len() == s.len() && f.iter().zip(s.iter()).all(|(a, b)| *a == "*" || a == b)
}

#[test]
fn a_filter_selects_its_own_request_only() {
    for leaf in ["token", "done", "error"] {
        assert!(selects(&response_filter("corr_1"), &response_subject("corr_1", leaf)));
        assert!(!selects(&response_filter("corr_1"), &response_subject("corr_2", leaf)));
    }
}
