use sticker_annotate::error::AnnotateError;
use sticker_annotate::sentence::{PySentence, Token};

fn s(x: &str) -> String {
    x.to_string()
}

#[test]
fn construct_keeps_length_and_forms() {
    let forms = vec!["The", "dog", "runs"];
    let sent = PySentence::new(forms.clone());
    assert_eq!(sent.len(), 3);
    for (i, form) in forms.iter().enumerate() {
        let t = sent.token_at(i as isize).unwrap();
        assert_eq!(t.form(), Some(form.to_string()));
    }
    assert_eq!(sent.forms(), vec![s("The"), s("dog"), s("runs")]);
}

#[test]
fn construct_empty_sentence() {
    let sent = PySentence::new(vec![]);
    assert_eq!(sent.len(), 0);
    assert!(matches!(sent.token_at(0), Err(AnnotateError::IndexOutOfRange)));
    assert_eq!(sent.repr(), "Sentence([])");
}

#[test]
fn token_index_out_of_range() {
    let sent = PySentence::new(vec!["a", "b"]);
    assert!(matches!(sent.token_at(2), Err(AnnotateError::IndexOutOfRange)));
    assert!(matches!(sent.token_at(-1), Err(AnnotateError::IndexOutOfRange)));
    assert!(matches!(sent.token_at(100), Err(AnnotateError::IndexOutOfRange)));
    assert!(sent.token_at(1).is_ok());
}

#[test]
fn fresh_tokens_have_no_annotations() {
    let sent = PySentence::new(vec!["The", "dog", "runs"]);
    for i in 0..3 {
        let t = sent.token_at(i).unwrap();
        assert_eq!(t.head(), None);
        assert_eq!(t.upos(), None);
        assert_eq!(t.xpos(), None);
        assert_eq!(t.lemma(), None);
        assert_eq!(t.head_rel(), None);
    }
}

#[test]
fn root_reads_as_absent() {
    let sent = PySentence::new(vec!["a"]);
    let root = sent.root();
    assert_eq!(root.form(), None);
    assert_eq!(root.lemma(), None);
    assert_eq!(root.head(), None);
    assert_eq!(root.repr(), "Root");
}

#[test]
fn iterate_in_order_and_restart() {
    let sent = PySentence::new(vec!["x", "y", "z"]);
    for _ in 0..2 {
        let mut it = sent.iter();
        let mut seen = Vec::new();
        while let Some(t) = it.next() {
            seen.push(t.form().unwrap());
        }
        assert_eq!(seen, vec![s("x"), s("y"), s("z")]);
        assert!(it.next().is_none());
    }
}

#[test]
fn features_set_get_delete() {
    let mut sent = PySentence::new(vec!["dog"]);
    let feats = sent.token_at(0).unwrap().features();
    let key = s("Case");
    assert_eq!(feats.contains(&sent, &key).unwrap(), false);
    feats.set(&mut sent, s("Case"), s("Nom")).unwrap();
    assert!(feats.contains(&sent, &key).unwrap());
    assert_eq!(feats.get(&sent, &key).unwrap(), "Nom");
    feats.delete(&mut sent, &key).unwrap();
    assert_eq!(feats.contains(&sent, &key).unwrap(), false);
    assert!(matches!(feats.get(&sent, &key), Err(AnnotateError::UnknownKey)));
    assert!(matches!(feats.delete(&mut sent, &key), Err(AnnotateError::UnknownKey)));
}

#[test]
fn features_set_replaces_value() {
    let mut sent = PySentence::new(vec!["dogs"]);
    let feats = sent.token_at(0).unwrap().features();
    feats.set(&mut sent, s("Number"), s("Sing")).unwrap();
    feats.set(&mut sent, s("Number"), s("Plur")).unwrap();
    assert_eq!(feats.get(&sent, &s("Number")).unwrap(), "Plur");
    assert_eq!(feats.repr(&sent).unwrap(), "Features {\"Number\": \"Plur\"}");
}

#[test]
fn features_repr_lists_in_insertion_order() {
    let mut sent = PySentence::new(vec!["dog"]);
    let feats = sent.token_at(0).unwrap().features();
    assert_eq!(feats.repr(&sent).unwrap(), "Features {}");
    feats.set(&mut sent, s("Number"), s("Sing")).unwrap();
    feats.set(&mut sent, s("Case"), s("Nom")).unwrap();
    assert_eq!(
        feats.repr(&sent).unwrap(),
        "Features {\"Number\": \"Sing\", \"Case\": \"Nom\"}"
    );
}

#[test]
fn features_delete_absent_key() {
    let mut sent = PySentence::new(vec!["dog"]);
    let feats = sent.token_at(0).unwrap().features();
    assert!(matches!(feats.delete(&mut sent, &s("Gender")), Err(AnnotateError::UnknownKey)));
}

#[test]
fn feature_edit_leaves_other_tokens() {
    let mut sent = PySentence::new(vec!["a", "b"]);
    let f0 = sent.token_at(0).unwrap().features();
    let f1 = sent.token_at(1).unwrap().features();
    f0.set(&mut sent, s("K"), s("V")).unwrap();
    assert_eq!(f1.contains(&sent, &s("K")).unwrap(), false);
    assert_eq!(sent.token_at(0).unwrap().form(), Some(s("a")));
}

#[test]
fn root_features_are_invalid() {
    let mut sent = PySentence::new(vec!["a"]);
    let feats = sent.root().features();
    let misc = sent.root().misc();
    for key in ["Case", "", "Number"] {
        let key = s(key);
        assert!(matches!(feats.contains(&sent, &key), Err(AnnotateError::InvalidOperation)));
        assert!(matches!(feats.get(&sent, &key), Err(AnnotateError::InvalidOperation)));
        assert!(matches!(feats.set(&mut sent, key.clone(), s("x")), Err(AnnotateError::InvalidOperation)));
        assert!(matches!(feats.delete(&mut sent, &key), Err(AnnotateError::InvalidOperation)));
        assert!(matches!(misc.contains(&sent, &key), Err(AnnotateError::InvalidOperation)));
        assert!(matches!(misc.get(&sent, &key), Err(AnnotateError::InvalidOperation)));
        assert!(matches!(misc.set(&mut sent, key.clone(), s("x")), Err(AnnotateError::InvalidOperation)));
        assert!(matches!(misc.delete(&mut sent, &key), Err(AnnotateError::InvalidOperation)));
    }
    assert_eq!(feats.repr(&sent).unwrap(), "Features {}");
    assert_eq!(misc.repr(&sent).unwrap(), "Misc {}");
}

#[test]
fn misc_set_get_delete() {
    let mut sent = PySentence::new(vec!["dog"]);
    let misc = sent.token_at(0).unwrap().misc();
    misc.set(&mut sent, s("SpaceAfter"), s("No")).unwrap();
    assert_eq!(misc.get(&sent, &s("SpaceAfter")).unwrap(), "No");
    assert_eq!(misc.repr(&sent).unwrap(), "Misc {\"SpaceAfter\": \"No\"}");
    misc.delete(&mut sent, &s("SpaceAfter")).unwrap();
    assert!(matches!(misc.get(&sent, &s("SpaceAfter")), Err(AnnotateError::UnknownKey)));
    assert!(matches!(misc.delete(&mut sent, &s("SpaceAfter")), Err(AnnotateError::UnknownKey)));
}

#[test]
fn misc_key_without_value() {
    let mut t = Token::new(s("dog"));
    t.misc.insert(s("Flag"), None);
    t.misc.insert(s("Gloss"), Some(s("hound")));
    let mut sent = PySentence::from_tokens(vec![t]).unwrap();
    let misc = sent.token_at(0).unwrap().misc();
    assert!(misc.contains(&sent, &s("Flag")).unwrap());
    assert!(matches!(misc.get(&sent, &s("Flag")), Err(AnnotateError::UnknownKey)));
    assert_eq!(misc.repr(&sent).unwrap(), "Misc {\"Gloss\": \"hound\"}");
    misc.delete(&mut sent, &s("Flag")).unwrap();
    assert!(!misc.contains(&sent, &s("Flag")).unwrap());
}

#[test]
fn handle_past_the_sentence() {
    let mut big = PySentence::new(vec!["a", "b", "c"]);
    let small = PySentence::new(vec!["a"]);
    let feats = big.token_at(2).unwrap().features();
    assert!(matches!(feats.get(&small, &s("K")), Err(AnnotateError::IndexOutOfRange)));
    assert!(matches!(feats.repr(&small), Err(AnnotateError::IndexOutOfRange)));
    assert!(feats.set(&mut big, s("K"), s("V")).is_ok());
}

#[test]
fn token_repr_with_annotations() {
    let mut sent = PySentence::new(vec!["The", "dog"]);
    assert_eq!(sent.token_at(0).unwrap().repr(), "Token(form = 'The')");
    sent.set_tags(0, Some(s("the")), Some(s("DET")), Some(s("DT"))).unwrap();
    sent.set_head(0, 2, Some(s("det"))).unwrap();
    let t = sent.token_at(0).unwrap();
    assert_eq!(t.lemma(), Some(s("the")));
    assert_eq!(t.head(), Some(2));
    assert_eq!(t.head_rel(), Some(s("det")));
    assert_eq!(
        t.repr(),
        "Token(form = 'The', upos = 'DET', xpos = 'DT', head = 2, relation = det)"
    );
    assert_eq!(
        sent.repr(),
        "Sentence([Token(form = 'The', upos = 'DET', xpos = 'DT', head = 2, relation = det), Token(form = 'dog')])"
    );
}

#[test]
fn token_repr_multi_digit_head() {
    let forms: Vec<&str> = vec!["w"; 12];
    let mut sent = PySentence::new(forms);
    sent.set_head(0, 12, None).unwrap();
    assert_eq!(sent.token_at(0).unwrap().repr(), "Token(form = 'w', head = 12)");
}

#[test]
fn set_head_out_of_range() {
    let mut sent = PySentence::new(vec!["a", "b"]);
    assert!(matches!(sent.set_head(0, 3, None), Err(AnnotateError::IndexOutOfRange)));
    assert!(matches!(sent.set_head(2, 0, None), Err(AnnotateError::IndexOutOfRange)));
    assert!(matches!(sent.set_tags(2, None, None, None), Err(AnnotateError::IndexOutOfRange)));
    assert_eq!(sent.token_at(0).unwrap().head(), None);
}

#[test]
fn from_tokens_checks_heads() {
    let mut t = Token::new(s("a"));
    t.head = Some(sticker_annotate::sentence::DepEdge { head: 5, relation: None });
    assert!(matches!(PySentence::from_tokens(vec![t]), Err(AnnotateError::IndexOutOfRange)));
    let mut u = Token::new(s("a"));
    u.head = Some(sticker_annotate::sentence::DepEdge { head: 0, relation: Some(s("root")) });
    let sent = PySentence::from_tokens(vec![u]).unwrap();
    assert_eq!(sent.token_at(0).unwrap().head(), Some(0));
}

#[test]
fn dependency_tree_check() {
    let mut sent = PySentence::new(vec!["a", "b", "c"]);
    assert!(!sent.is_dependency_tree());
    sent.set_head(0, 0, None).unwrap();
    sent.set_head(1, 1, None).unwrap();
    sent.set_head(2, 2, None).unwrap();
    assert!(sent.is_dependency_tree());
    // a cycle between the second and third token
    sent.set_head(1, 3, None).unwrap();
    assert!(!sent.is_dependency_tree());
    let empty = PySentence::new(vec![]);
    assert!(empty.is_dependency_tree());
}
