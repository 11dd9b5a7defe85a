use sticker_annotate::config::{
    load_pretrain_config, load_tokenizer, Config, InputSection, LabelerSection, ModelSection,
    PretrainModelType, PyConfig,
};
use sticker_annotate::error::AnnotateError;

fn config(vocab: &str, labels: &str, params: &str, pretrain: &str) -> Config {
    Config {
        input: InputSection { vocab: vocab.to_string() },
        labeler: LabelerSection { labels: labels.to_string() },
        model: ModelSection {
            parameters: params.to_string(),
            pretrain_config: pretrain.to_string(),
            pretrain_type: PretrainModelType::Bert,
        },
    }
}

#[test]
fn config_paths_are_relative_to_file() {
    let c = PyConfig::new(
        config("vocab.txt", "/abs/labels.yaml", "params.hdf5", "sub/bert.json"),
        "models/de/sticker.conf",
    );
    assert_eq!(c.as_ref().input.vocab, "models/de/vocab.txt");
    assert_eq!(c.get_labeler().get_labels(), "/abs/labels.yaml");
    assert_eq!(c.get_model().get_parameters(), "models/de/params.hdf5");
    assert_eq!(c.get_model().get_pretrain_config(), "models/de/sub/bert.json");
}

#[test]
fn config_without_directory_keeps_paths() {
    let c = PyConfig::new(config("vocab.txt", "labels.yaml", "p", "b.json"), "sticker.conf");
    assert_eq!(c.as_ref().input.vocab, "vocab.txt");
    let r = PyConfig::new(config("vocab.txt", "l", "p", "b"), "/sticker.conf");
    assert_eq!(r.as_ref().input.vocab, "/vocab.txt");
}

#[test]
fn pretrain_config_request() {
    let c = config("v", "l", "p", "bert.json");
    let req = load_pretrain_config(&c).unwrap();
    assert_eq!(req.path, "bert.json");
    assert_eq!(req.model_type, PretrainModelType::Bert);
    let empty = config("v", "l", "p", "");
    assert!(matches!(load_pretrain_config(&empty), Err(AnnotateError::Config { .. })));
}

#[test]
fn tokenizer_request() {
    let mut c = config("vocab.txt", "l", "p", "b");
    c.model.pretrain_type = PretrainModelType::XlmRoberta;
    let req = load_tokenizer(&c).unwrap();
    assert_eq!(req.path, "vocab.txt");
    assert_eq!(req.model_type, PretrainModelType::XlmRoberta);
    let empty = config("", "l", "p", "b");
    assert!(matches!(load_tokenizer(&empty), Err(AnnotateError::Config { .. })));
}
