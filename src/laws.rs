use vstd::prelude::*;
use crate::error::AnnotateError;
use crate::sentence::{
    PySentence, Token, feature_lookup, feature_view, misc_lookup, misc_view, payload, removal_result,
};

verus! {

/// A sentence built from forms has one token per form, and the view of
/// token `i` reads the `i`-th form.
pub proof fn law_constructed_forms(s: PySentence, forms: Seq<Seq<char>>, i: int)
    requires
        s.wf(),
        s.num_tokens() == forms.len(),
        forall|j: int| 0 <= j < forms.len() ==> (#[trigger] s.token(j)).form@ == forms[j],
        0 <= i < forms.len(),
    ensures
        s.forms_spec() == forms,
        payload(s.nodes()[i + 1]) == Some::<Token>(s.token(i)),
        s.token(i).form@ == forms[i],
{
    assert(s.nodes()[i + 1] is Token);
    assert(s.forms_spec() =~= forms);
}

/// After storing `value` under `key` in the features of a node, looking
/// `key` up there gives `value`.
pub proof fn law_feature_set_then_get(
    before: PySentence,
    after: PySentence,
    node: int,
    key: Seq<char>,
    value: String,
)
    requires
        feature_view(before, node) is Ok,
        feature_view(after, node) == Ok::<_, AnnotateError>(
            feature_view(before, node)->Ok_0.insert(key, value),
        ),
    ensures
        feature_lookup(feature_view(after, node), key) == Ok::<String, AnnotateError>(value),
{
}

/// After removing `key` from the features of a node, looking it up there
/// fails with an unknown key, and so does removing it again.
pub proof fn law_feature_delete_then_get(before: PySentence, after: PySentence, node: int, key: Seq<char>)
    requires
        feature_view(before, node) is Ok,
        feature_view(after, node) == Ok::<_, AnnotateError>(feature_view(before, node)->Ok_0.remove(key)),
    ensures
        feature_lookup(feature_view(after, node), key) == Err::<String, _>(AnnotateError::UnknownKey),
        removal_result(feature_view(after, node), key) == Err::<(), _>(AnnotateError::UnknownKey),
{
}

/// The same two laws for the miscellaneous features.
pub proof fn law_misc_set_get_delete(
    before: PySentence,
    after_set: PySentence,
    after_delete: PySentence,
    node: int,
    key: Seq<char>,
    value: String,
)
    requires
        misc_view(before, node) is Ok,
        misc_view(after_set, node) == Ok::<_, AnnotateError>(
            misc_view(before, node)->Ok_0.insert(key, Some(value)),
        ),
        misc_view(after_delete, node) == Ok::<_, AnnotateError>(
            misc_view(after_set, node)->Ok_0.remove(key),
        ),
    ensures
        misc_lookup(misc_view(after_set, node), key) == Ok::<String, AnnotateError>(value),
        misc_lookup(misc_view(after_delete, node), key) == Err::<String, _>(AnnotateError::UnknownKey),
        removal_result(misc_view(after_delete, node), key) == Err::<(), _>(AnnotateError::UnknownKey),
{
}

/// Every feature or misc access on the root fails with an invalid
/// operation, whatever the key.
pub proof fn law_root_has_no_features(s: PySentence, key: Seq<char>)
    requires
        s.wf(),
    ensures
        feature_view(s, 0) == Err::<Map<Seq<char>, String>, _>(AnnotateError::InvalidOperation),
        misc_view(s, 0) == Err::<Map<Seq<char>, Option<String>>, _>(AnnotateError::InvalidOperation),
        feature_lookup(feature_view(s, 0), key) == Err::<String, _>(AnnotateError::InvalidOperation),
        misc_lookup(misc_view(s, 0), key) == Err::<String, _>(AnnotateError::InvalidOperation),
        removal_result(feature_view(s, 0), key) == Err::<(), _>(AnnotateError::InvalidOperation),
        removal_result(misc_view(s, 0), key) == Err::<(), _>(AnnotateError::InvalidOperation),
{
}

} // verus!
