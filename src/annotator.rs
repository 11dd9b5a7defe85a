use vstd::prelude::*;
use crate::error::AnnotateError;
use crate::sentence::PySentence;
use crate::text::views;

verus! {

/// A sentence paired with its sub-word pieces, as a tokenizer produces it
/// and a tagger consumes it.
pub struct SentenceWithPieces {
    pub sentence: PySentence,
    /// Piece identifiers of the whole sentence.
    pub pieces: Vec<i64>,
    /// For each token, the position in `pieces` of its first piece.
    pub token_offsets: Vec<usize>,
}

/// Splits the forms of a sentence into sub-word pieces.
pub trait Tokenize {
    fn tokenize(&self, sentence: PySentence) -> SentenceWithPieces;
}

/// Writes predictions (lemma, tags, heads, features) into a batch of
/// sentences, in place. Its weights do not change after construction, so
/// one tagger can serve calls from many threads at once.
pub trait Tag {
    fn tag_sentences(&self, sentences: &mut Vec<SentenceWithPieces>) -> Result<(), String>;
}

/// Whether the tagged batch still holds, position by position, well-formed
/// sentences with the forms in `expected`.
pub open spec fn batch_matches(expected: Seq<Vec<String>>, batch: Seq<SentenceWithPieces>) -> bool {
    &&& batch.len() == expected.len()
    &&& forall|i: int| 0 <= i < batch.len() ==> (#[trigger] batch[i]).sentence.wf()
        && batch[i].sentence.forms_spec() == views(expected[i]@)
}

/// The sentences of a batch, in order.
pub open spec fn batch_sentences(batch: Seq<SentenceWithPieces>) -> Seq<PySentence> {
    batch.map_values(|b: SentenceWithPieces| b.sentence)
}

/// Whether `a` and `b` hold the same strings.
fn same_strings(a: &Vec<String>, b: &Vec<String>) -> (r: bool)
    ensures
        r == (views(a@) == views(b@)),
{
    if a.len() != b.len() {
        assert(views(a@).len() != views(b@).len());
        return false;
    }
    let mut i: usize = 0;
    while i < a.len()
        invariant
            a@.len() == b@.len(),
            i <= a@.len(),
            forall|j: int| 0 <= j < i ==> #[trigger] a@[j]@ == b@[j]@,
        decreases a@.len() - i,
    {
        if a[i] != b[i] {
            assert(views(a@)[i as int] != views(b@)[i as int]);
            return false;
        }
        i = i + 1;
    }
    assert(views(a@) =~= views(b@));
    true
}

/// Turns what the tagger did with a batch into the result of annotation:
/// its error, or the sentences in order where the batch still has the
/// expected shape.
pub fn finish_batch(
    expected: &Vec<Vec<String>>,
    outcome: Result<(), String>,
    batch: Vec<SentenceWithPieces>,
) -> (r: Result<Vec<PySentence>, AnnotateError>)
    ensures
        outcome matches Err(m) ==> r == Err::<Vec<PySentence>, _>(AnnotateError::TaggingFailed { message: m }),
        outcome is Ok ==> (r is Ok <==> batch_matches(expected@, batch@)),
        outcome is Ok && !batch_matches(expected@, batch@) ==> r == Err::<Vec<PySentence>, _>(
            AnnotateError::InternalInvariantViolation,
        ),
        r matches Ok(v) ==> v@ == batch_sentences(batch@),
{
    match outcome {
        Err(message) => {
            return Err(AnnotateError::TaggingFailed { message });
        },
        Ok(()) => {},
    }
    if batch.len() != expected.len() {
        return Err(AnnotateError::InternalInvariantViolation);
    }
    let mut i: usize = 0;
    while i < batch.len()
        invariant
            outcome is Ok,
            batch@.len() == expected@.len(),
            i <= batch@.len(),
            forall|j: int| 0 <= j < i ==> (#[trigger] batch@[j]).sentence.wf()
                && batch@[j].sentence.forms_spec() == views(expected@[j]@),
        decreases batch@.len() - i,
    {
        if !batch[i].sentence.check_wf() {
            return Err(AnnotateError::InternalInvariantViolation);
        }
        let forms = batch[i].sentence.forms();
        let same = same_strings(&forms, &expected[i]);
        assert(views(forms@) =~= batch@[i as int].sentence.forms_spec());
        if !same {
            return Err(AnnotateError::InternalInvariantViolation);
        }
        i = i + 1;
    }
    let ghost all = batch@;
    let mut rest = batch;
    let mut out: Vec<PySentence> = Vec::new();
    while rest.len() > 0
        invariant
            out@.len() + rest@.len() == all.len(),
            rest@ == all.subrange(out@.len() as int, all.len() as int),
            out@ == batch_sentences(all).subrange(0, out@.len() as int),
        decreases rest@.len(),
    {
        let b = rest.remove(0);
        out.push(b.sentence);
        assert(out@ =~= batch_sentences(all).subrange(0, out@.len() as int));
        assert(rest@ =~= all.subrange(out@.len() as int, all.len() as int));
    }
    assert(out@ =~= batch_sentences(all));
    Ok(out)
}

/// Annotates sentences with one tokenizer and one tagger. Every method
/// takes `&self`: the pair is shared read-only, and each call builds its
/// own batch.
pub struct PyAnnotator<K, G> {
    pub tokenizer: K,
    pub tagger: G,
}

impl<K: Tokenize, G: Tag> PyAnnotator<K, G> {
    /// An annotator from a tokenizer and a tagger.
    pub fn new(tokenizer: K, tagger: G) -> (r: Self)
        ensures
            r.tokenizer == tokenizer,
            r.tagger == tagger,
    {
        PyAnnotator { tokenizer, tagger }
    }

    /// Annotates `sentences` with one call of the tagger, and returns them
    /// in their order. An empty list comes back empty, without a call.
    pub fn annotate_sentences(&self, sentences: Vec<PySentence>) -> (r: Result<
        Vec<PySentence>,
        AnnotateError,
    >)
        requires
            forall|i: int| 0 <= i < sentences@.len() ==> (#[trigger] sentences@[i]).wf(),
        ensures
            sentences@.len() == 0 ==> (r matches Ok(v) && v@.len() == 0),
            r matches Ok(v) ==> v@.len() == sentences@.len() && forall|i: int|
                0 <= i < v@.len() ==> (#[trigger] v@[i]).wf() && v@[i].forms_spec()
                    == sentences@[i].forms_spec(),
            r matches Err(e) ==> (e is TaggingFailed || e is InternalInvariantViolation),
    {
        if sentences.len() == 0 {
            return Ok(Vec::new());
        }
        let ghost all = sentences@;
        let mut rest = sentences;
        let mut expected: Vec<Vec<String>> = Vec::new();
        let mut batch: Vec<SentenceWithPieces> = Vec::new();
        while rest.len() > 0
            invariant
                expected@.len() + rest@.len() == all.len(),
                batch@.len() == expected@.len(),
                rest@ == all.subrange(expected@.len() as int, all.len() as int),
                forall|i: int| 0 <= i < all.len() ==> (#[trigger] all[i]).wf(),
                forall|i: int|
                    0 <= i < expected@.len() ==> views((#[trigger] expected@[i])@)
                        == all[i].forms_spec(),
            decreases rest@.len(),
        {
            let ghost k = expected@.len() as int;
            let s = rest.remove(0);
            assert(s == all[k]);
            let forms = s.forms();
            assert(views(forms@) =~= all[k].forms_spec());
            expected.push(forms);
            batch.push(self.tokenizer.tokenize(s));
            assert(rest@ =~= all.subrange(expected@.len() as int, all.len() as int));
        }
        let outcome = self.tagger.tag_sentences(&mut batch);
        let r = finish_batch(&expected, outcome, batch);
        proof {
            if r is Ok {
                let v = r->Ok_0;
                assert forall|i: int| 0 <= i < v@.len() implies (#[trigger] v@[i]).wf()
                    && v@[i].forms_spec() == all[i].forms_spec() by {
                    assert(v@[i] == batch@[i].sentence);
                }
            }
        }
        r
    }

    /// Annotates one sentence.
    pub fn annotate_sentence(&self, sentence: PySentence) -> (r: Result<PySentence, AnnotateError>)
        requires
            sentence.wf(),
        ensures
            r matches Ok(s) ==> s.wf() && s.forms_spec() == sentence.forms_spec(),
            r matches Err(e) ==> (e is TaggingFailed || e is InternalInvariantViolation),
    {
        let ghost input = sentence;
        let mut v = self.annotate_sentences(vec![sentence]);
        match v {
            Ok(mut out) => match out.pop() {
                Some(s) => Ok(s),
                None => Err(AnnotateError::InternalInvariantViolation),
            },
            Err(e) => Err(e),
        }
    }
}

} // verus!
