use std::cell::Cell;

use sticker_annotate::annotator::{finish_batch, PyAnnotator, SentenceWithPieces, Tag, Tokenize};
use sticker_annotate::error::AnnotateError;
use sticker_annotate::sentence::PySentence;

fn s(x: &str) -> String {
    x.to_string()
}

/// One piece per character of each form.
struct CharPieces;

impl Tokenize for CharPieces {
    fn tokenize(&self, sentence: PySentence) -> SentenceWithPieces {
        let mut pieces = Vec::new();
        let mut token_offsets = Vec::new();
        for form in sentence.forms() {
            token_offsets.push(pieces.len());
            for c in form.chars() {
                pieces.push(c as i64);
            }
        }
        SentenceWithPieces { sentence, pieces, token_offsets }
    }
}

/// Tags every token as a noun with its lowercased form as lemma, and
/// attaches each token to the one before it (the first to the root).
struct ChainTagger {
    calls: Cell<usize>,
}

impl Tag for ChainTagger {
    fn tag_sentences(&self, sentences: &mut Vec<SentenceWithPieces>) -> Result<(), String> {
        self.calls.set(self.calls.get() + 1);
        for swp in sentences.iter_mut() {
            let forms = swp.sentence.forms();
            for (i, form) in forms.iter().enumerate() {
                swp.sentence
                    .set_tags(i, Some(form.to_lowercase()), Some(s("NOUN")), Some(s("NN")))
                    .unwrap();
                let rel = if i == 0 { s("root") } else { s("dep") };
                swp.sentence.set_head(i, i, Some(rel)).unwrap();
            }
        }
        Ok(())
    }
}

struct FailingTagger;

impl Tag for FailingTagger {
    fn tag_sentences(&self, _sentences: &mut Vec<SentenceWithPieces>) -> Result<(), String> {
        Err(s("device failure"))
    }
}

struct PanickingTagger;

impl Tag for PanickingTagger {
    fn tag_sentences(&self, _sentences: &mut Vec<SentenceWithPieces>) -> Result<(), String> {
        panic!("the tagger must not be called")
    }
}

/// Drops the last sentence of the batch.
struct LosingTagger;

impl Tag for LosingTagger {
    fn tag_sentences(&self, sentences: &mut Vec<SentenceWithPieces>) -> Result<(), String> {
        sentences.pop();
        Ok(())
    }
}

fn chain() -> PyAnnotator<CharPieces, ChainTagger> {
    PyAnnotator::new(CharPieces, ChainTagger { calls: Cell::new(0) })
}

#[test]
fn annotate_empty_batch() {
    let annotator = PyAnnotator::new(CharPieces, PanickingTagger);
    let out = annotator.annotate_sentences(vec![]).unwrap();
    assert!(out.is_empty());
}

#[test]
fn annotate_many_calls_tagger_once() {
    let annotator = chain();
    let batch = vec![PySentence::new(vec!["a"]), PySentence::new(vec!["b", "c"])];
    annotator.annotate_sentences(batch).unwrap();
    assert_eq!(annotator.tagger.calls.get(), 1);
}

#[test]
fn annotate_many_keeps_order() {
    let annotator = chain();
    let batch = vec![
        PySentence::new(vec!["One"]),
        PySentence::new(vec!["Two", "words"]),
        PySentence::new(vec!["Three", "more", "words"]),
    ];
    let out = annotator.annotate_sentences(batch).unwrap();
    assert_eq!(out.len(), 3);
    assert_eq!(out[0].forms(), vec![s("One")]);
    assert_eq!(out[1].forms(), vec![s("Two"), s("words")]);
    assert_eq!(out[2].forms(), vec![s("Three"), s("more"), s("words")]);
    assert_eq!(out[2].token_at(0).unwrap().lemma(), Some(s("three")));
}

#[test]
fn annotate_twice_gives_same_annotations() {
    let annotator = chain();
    let a = annotator.annotate_sentence(PySentence::new(vec!["The", "dog", "runs"])).unwrap();
    let b = annotator.annotate_sentence(PySentence::new(vec!["The", "dog", "runs"])).unwrap();
    assert_eq!(a.repr(), b.repr());
    for i in 0..3 {
        let (x, y) = (a.token_at(i).unwrap(), b.token_at(i).unwrap());
        assert_eq!(x.lemma(), y.lemma());
        assert_eq!(x.upos(), y.upos());
        assert_eq!(x.xpos(), y.xpos());
        assert_eq!(x.head(), y.head());
        assert_eq!(x.head_rel(), y.head_rel());
    }
}

#[test]
fn annotate_one_forms_a_tree() {
    let annotator = chain();
    let sent = PySentence::new(vec!["The", "dog", "runs"]);
    for i in 0..3 {
        assert_eq!(sent.token_at(i).unwrap().head(), None);
        assert_eq!(sent.token_at(i).unwrap().upos(), None);
    }
    let out = annotator.annotate_sentence(sent).unwrap();
    let n = out.len();
    assert_eq!(n, 3);
    for i in 0..n {
        let head = out.token_at(i as isize).unwrap().head().unwrap();
        assert!(head <= 3);
        assert!(out.token_at(i as isize).unwrap().upos().is_some());
        // following heads reaches the root within n steps: no cycle
        let mut node = i + 1;
        let mut steps = 0;
        while node != 0 {
            node = out.token_at(node as isize - 1).unwrap().head().unwrap();
            steps += 1;
            assert!(steps <= n);
        }
    }
    assert!(out.is_dependency_tree());
}

#[test]
fn annotate_failure_is_reported() {
    let annotator = PyAnnotator::new(CharPieces, FailingTagger);
    let r = annotator.annotate_sentences(vec![PySentence::new(vec!["a"])]);
    match r {
        Err(AnnotateError::TaggingFailed { message }) => assert_eq!(message, "device failure"),
        _ => panic!("expected a tagging failure"),
    }
    let one = annotator.annotate_sentence(PySentence::new(vec!["a"]));
    assert!(matches!(one, Err(AnnotateError::TaggingFailed { .. })));
}

#[test]
fn annotate_lost_sentence_is_an_invariant_violation() {
    let annotator = PyAnnotator::new(CharPieces, LosingTagger);
    let r = annotator.annotate_sentences(vec![PySentence::new(vec!["a"]), PySentence::new(vec!["b"])]);
    assert!(matches!(r, Err(AnnotateError::InternalInvariantViolation)));
}

#[test]
fn finish_batch_checks_forms() {
    let expected = vec![vec![s("a"), s("b")]];
    let good = vec![CharPieces.tokenize(PySentence::new(vec!["a", "b"]))];
    let out = finish_batch(&expected, Ok(()), good).unwrap();
    assert_eq!(out[0].forms(), vec![s("a"), s("b")]);
    let bad = vec![CharPieces.tokenize(PySentence::new(vec!["a", "c"]))];
    assert!(matches!(
        finish_batch(&expected, Ok(()), bad),
        Err(AnnotateError::InternalInvariantViolation)
    ));
    let failed = vec![CharPieces.tokenize(PySentence::new(vec!["a", "b"]))];
    assert!(matches!(
        finish_batch(&expected, Err(s("oom")), failed),
        Err(AnnotateError::TaggingFailed { .. })
    ));
}
