use vstd::prelude::*;
use crate::error::AnnotateError;
use crate::keyed::KeyedMap;

verus! {

/// A dependency edge: the node index of the head (0 is the root) and an
/// optional relation label.
#[derive(Debug)]
pub struct DepEdge {
    pub head: usize,
    pub relation: Option<String>,
}

/// A token with its annotations.
#[derive(Debug)]
pub struct Token {
    pub form: String,
    pub lemma: Option<String>,
    pub upos: Option<String>,
    pub xpos: Option<String>,
    /// Morphological features; every key has a value.
    pub features: KeyedMap<String>,
    /// Miscellaneous features; a key may have no value.
    pub misc: KeyedMap<Option<String>>,
    pub head: Option<DepEdge>,
}

impl Token {
    /// Both feature maps are well formed and the head, if any, is one of
    /// `n_nodes` nodes.
    pub open spec fn wf(&self, n_nodes: int) -> bool {
        &&& self.features.wf()
        &&& self.misc.wf()
        &&& (self.head matches Some(e) ==> e.head < n_nodes)
    }

    /// A token with form `form` and no annotations.
    pub fn new(form: String) -> (r: Token)
        ensures
            r.form == form,
            r.lemma is None,
            r.upos is None,
            r.xpos is None,
            r.head is None,
            r.features.wf(),
            r.misc.wf(),
            r.features@ == Map::<Seq<char>, String>::empty(),
            r.misc@ == Map::<Seq<char>, Option<String>>::empty(),
    {
        Token {
            form,
            lemma: None,
            upos: None,
            xpos: None,
            features: KeyedMap::new(),
            misc: KeyedMap::new(),
            head: None,
        }
    }
}

/// A node of the sentence graph: the root, or a token.
#[derive(Debug)]
pub enum Node {
    Root,
    Token(Token),
}

/// A sentence: the root at node 0, followed by its tokens.
///
/// Token `i` of the sentence (counting from 0) is node `i + 1`.
#[derive(Debug)]
pub struct PySentence {
    nodes: Vec<Node>,
}

/// The payload of node `n`: `None` for the root.
pub open spec fn payload(node: Node) -> Option<Token> {
    match node {
        Node::Root => None,
        Node::Token(t) => Some(t),
    }
}

/// The feature map of node `node`, or why it cannot be had.
pub open spec fn feature_view(s: PySentence, node: int) -> Result<Map<Seq<char>, String>, AnnotateError> {
    if node < 0 || node >= s.nodes().len() {
        Err(AnnotateError::IndexOutOfRange)
    } else {
        match s.nodes()[node] {
            Node::Root => Err(AnnotateError::InvalidOperation),
            Node::Token(t) => Ok(t.features@),
        }
    }
}

/// The misc map of node `node`, or why it cannot be had.
pub open spec fn misc_view(s: PySentence, node: int) -> Result<Map<Seq<char>, Option<String>>, AnnotateError> {
    if node < 0 || node >= s.nodes().len() {
        Err(AnnotateError::IndexOutOfRange)
    } else {
        match s.nodes()[node] {
            Node::Root => Err(AnnotateError::InvalidOperation),
            Node::Token(t) => Ok(t.misc@),
        }
    }
}

/// What a feature lookup of `key` returns.
pub open spec fn feature_lookup(
    fv: Result<Map<Seq<char>, String>, AnnotateError>,
    key: Seq<char>,
) -> Result<String, AnnotateError> {
    match fv {
        Err(e) => Err(e),
        Ok(m) => if m.contains_key(key) {
            Ok(m[key])
        } else {
            Err(AnnotateError::UnknownKey)
        },
    }
}

/// What a misc lookup of `key` returns: a key without a value counts as absent.
pub open spec fn misc_lookup(
    mv: Result<Map<Seq<char>, Option<String>>, AnnotateError>,
    key: Seq<char>,
) -> Result<String, AnnotateError> {
    match mv {
        Err(e) => Err(e),
        Ok(m) => if m.contains_key(key) && m[key] is Some {
            Ok(m[key]->Some_0)
        } else {
            Err(AnnotateError::UnknownKey)
        },
    }
}

/// What removing `key` from a feature map returns.
pub open spec fn removal_result<V>(
    mv: Result<Map<Seq<char>, V>, AnnotateError>,
    key: Seq<char>,
) -> Result<(), AnnotateError> {
    match mv {
        Err(e) => Err(e),
        Ok(m) => if m.contains_key(key) {
            Ok(())
        } else {
            Err(AnnotateError::UnknownKey)
        },
    }
}

/// The head of node `n`, where it has one.
pub open spec fn head_of(s: PySentence, n: int) -> Option<int> {
    match payload(s.nodes()[n]) {
        Some(t) => match t.head {
            Some(e) => Some(e.head as int),
            None => None,
        },
        None => None,
    }
}

/// Following heads from node `n` reaches the root within `steps` steps.
pub open spec fn reaches_root(s: PySentence, n: int, steps: nat) -> bool
    decreases steps,
{
    if n == 0 {
        true
    } else if steps == 0 {
        false
    } else {
        match head_of(s, n) {
            Some(h) => reaches_root(s, h, (steps - 1) as nat),
            None => false,
        }
    }
}

/// Every token has a head, and following heads from any token reaches the
/// root: the edges form a tree rooted at the root, without cycles.
pub open spec fn is_tree(s: PySentence) -> bool {
    forall|n: int| 1 <= n < s.nodes().len() ==> #[trigger] reaches_root(s, n, s.num_tokens() as nat)
}

/// `b` is `a` with at most node `n` changed, and that only in its
/// feature maps.
pub open spec fn same_but_feature_maps(a: PySentence, b: PySentence, n: int) -> bool {
    &&& a.nodes().len() == b.nodes().len()
    &&& forall|m: int| 0 <= m < a.nodes().len() && m != n ==> #[trigger] b.nodes()[m] == a.nodes()[m]
    &&& (0 <= n < a.nodes().len() ==> match (a.nodes()[n], b.nodes()[n]) {
        (Node::Token(x), Node::Token(y)) => x.form == y.form && x.lemma == y.lemma && x.upos == y.upos
            && x.xpos == y.xpos && x.head == y.head,
        (Node::Root, Node::Root) => true,
        _ => false,
    })
}

pub(crate) fn clone_opt(o: &Option<String>) -> (r: Option<String>)
    ensures
        r == *o,
{
    match o {
        Some(s) => Some(s.clone()),
        None => None,
    }
}

impl PySentence {
    /// The nodes, root first.
    pub closed spec fn nodes(&self) -> Seq<Node> {
        self.nodes@
    }

    /// Node 0 is the root, every other node a well-formed token.
    pub open spec fn wf(&self) -> bool {
        &&& self.nodes().len() >= 1
        &&& self.nodes()[0] is Root
        &&& forall|n: int|
            1 <= n < self.nodes().len() ==> (#[trigger] self.nodes()[n] is Token
                && self.nodes()[n]->Token_0.wf(self.nodes().len() as int))
    }

    /// Number of tokens (the root is not counted).
    pub open spec fn num_tokens(&self) -> int {
        self.nodes().len() - 1
    }

    /// Token `i`, counting from 0.
    pub open spec fn token(&self, i: int) -> Token {
        self.nodes()[i + 1]->Token_0
    }

    /// The forms of the tokens, in order.
    pub open spec fn forms_spec(&self) -> Seq<Seq<char>> {
        Seq::new(self.num_tokens() as nat, |i: int| self.token(i).form@)
    }

    /// A sentence with a token of each form in `forms`, in order, and no
    /// annotations.
    pub fn new(forms: Vec<&str>) -> (r: PySentence)
        requires
            forms@.len() < usize::MAX,
        ensures
            r.wf(),
            r.num_tokens() == forms@.len(),
            forall|i: int| 0 <= i < forms@.len() ==> {
                let t = #[trigger] r.token(i);
                &&& t.form@ == forms@[i]@
                &&& t.lemma is None
                &&& t.upos is None
                &&& t.xpos is None
                &&& t.head is None
                &&& t.features@ == Map::<Seq<char>, String>::empty()
                &&& t.misc@ == Map::<Seq<char>, Option<String>>::empty()
            },
    {
        let mut nodes: Vec<Node> = Vec::new();
        nodes.push(Node::Root);
        let mut i: usize = 0;
        while i < forms.len()
            invariant
                i <= forms@.len(),
                forms@.len() < usize::MAX,
                nodes@.len() == i + 1,
                nodes@[0] is Root,
                forall|n: int| 1 <= n < nodes@.len() ==> {
                    let node = #[trigger] nodes@[n];
                    &&& node is Token
                    &&& node->Token_0.wf(1)
                    &&& node->Token_0.form@ == forms@[n - 1]@
                    &&& node->Token_0.lemma is None
                    &&& node->Token_0.upos is None
                    &&& node->Token_0.xpos is None
                    &&& node->Token_0.head is None
                    &&& node->Token_0.features@ == Map::<Seq<char>, String>::empty()
                    &&& node->Token_0.misc@ == Map::<Seq<char>, Option<String>>::empty()
                },
            decreases forms@.len() - i,
        {
            let t = Token::new(String::from_str(forms[i]));
            nodes.push(Node::Token(t));
            i = i + 1;
        }
        let r = PySentence { nodes };
        assert forall|i: int| 0 <= i < forms@.len() implies #[trigger] r.token(i).form@ == forms@[i]@ by {
            assert(r.nodes()[i + 1] == nodes@[i + 1]);
        }
        r
    }

    /// A sentence of already annotated tokens, in order; an index error
    /// where a head lies outside the sentence.
    pub fn from_tokens(tokens: Vec<Token>) -> (r: Result<PySentence, AnnotateError>)
        requires
            tokens@.len() < usize::MAX,
        ensures
            r is Ok <==> forall|i: int| 0 <= i < tokens@.len() ==> (#[trigger] tokens@[i]).wf(
                tokens@.len() as int + 1,
            ),
            r matches Ok(s) ==> s.wf() && s.num_tokens() == tokens@.len() && forall|i: int|
                0 <= i < tokens@.len() ==> #[trigger] s.token(i) == tokens@[i],
            r matches Err(e) ==> e == AnnotateError::IndexOutOfRange,
    {
        let ghost all = tokens@;
        let mut rest = tokens;
        let mut nodes: Vec<Node> = Vec::new();
        nodes.push(Node::Root);
        while rest.len() > 0
            invariant
                nodes@.len() + rest@.len() == all.len() + 1,
                nodes@.len() >= 1,
                nodes@[0] is Root,
                rest@ == all.subrange(nodes@.len() - 1, all.len() as int),
                forall|n: int| 1 <= n < nodes@.len() ==> #[trigger] nodes@[n] == Node::Token(all[n - 1]),
            decreases rest@.len(),
        {
            let t = rest.remove(0);
            nodes.push(Node::Token(t));
            assert(rest@ =~= all.subrange(nodes@.len() - 1, all.len() as int));
        }
        let s = PySentence { nodes };
        assert(s.nodes().len() == all.len() + 1);
        if s.check_wf() {
            assert forall|i: int| 0 <= i < all.len() implies (#[trigger] all[i]).wf(all.len() as int + 1) by {
                assert(s.nodes()[i + 1] == Node::Token(all[i]));
            }
            assert forall|i: int| 0 <= i < all.len() implies #[trigger] s.token(i) == all[i] by {
                assert(s.nodes()[i + 1] == Node::Token(all[i]));
            }
            Ok(s)
        } else {
            proof {
                let n = choose|n: int| 1 <= n < s.nodes().len() && !(#[trigger] s.nodes()[n] is Token
                    && s.nodes()[n]->Token_0.wf(s.nodes().len() as int));
                assert(all[n - 1] == s.nodes()[n]->Token_0);
                assert(!(all[n - 1].wf(all.len() as int + 1)));
            }
            Err(AnnotateError::IndexOutOfRange)
        }
    }

    /// Number of tokens (the root is not counted).
    pub fn len(&self) -> (r: usize)
        requires
            self.wf(),
        ensures
            r == self.num_tokens(),
    {
        self.nodes.len() - 1
    }

    /// The nodes of the sentence, root first.
    pub fn inner(&self) -> (r: &Vec<Node>)
        ensures
            r@ == self.nodes(),
    {
        &self.nodes
    }

    /// The forms of the tokens, in order.
    pub fn forms(&self) -> (r: Vec<String>)
        requires
            self.wf(),
        ensures
            r@.len() == self.num_tokens(),
            forall|i: int| 0 <= i < r@.len() ==> #[trigger] r@[i]@ == self.forms_spec()[i],
    {
        let mut r: Vec<String> = Vec::new();
        let mut n: usize = 1;
        while n < self.nodes.len()
            invariant
                self.wf(),
                1 <= n <= self.nodes@.len(),
                r@.len() == n - 1,
                forall|i: int| 0 <= i < r@.len() ==> #[trigger] r@[i]@ == self.forms_spec()[i],
            decreases self.nodes@.len() - n,
        {
            match &self.nodes[n] {
                Node::Token(t) => {
                    r.push(t.form.clone());
                },
                Node::Root => {
                    assert(self.nodes()[n as int] is Token);
                },
            }
            n = n + 1;
        }
        r
    }

    /// Whether following heads from node `n` reaches the root within as
    /// many steps as there are tokens.
    fn walks_to_root(&self, n: usize) -> (r: bool)
        requires
            self.wf(),
            n < self.nodes().len(),
        ensures
            r == reaches_root(*self, n as int, self.num_tokens() as nat),
    {
        let mut cur = n;
        let mut steps: usize = self.nodes.len() - 1;
        while cur != 0
            invariant
                self.wf(),
                cur < self.nodes().len(),
                steps <= self.num_tokens(),
                reaches_root(*self, n as int, self.num_tokens() as nat) == reaches_root(
                    *self,
                    cur as int,
                    steps as nat,
                ),
            decreases steps,
        {
            if steps == 0 {
                return false;
            }
            match &self.nodes[cur] {
                Node::Token(t) => match &t.head {
                    Some(e) => {
                        cur = e.head;
                        steps = steps - 1;
                    },
                    None => {
                        return false;
                    },
                },
                Node::Root => {
                    return false;
                },
            }
        }
        true
    }

    /// Whether the dependency edges form a tree rooted at the root: every
    /// token has a head, and no chain of heads runs in a cycle.
    pub fn is_dependency_tree(&self) -> (r: bool)
        requires
            self.wf(),
        ensures
            r == is_tree(*self),
    {
        let mut n: usize = 1;
        while n < self.nodes.len()
            invariant
                self.wf(),
                1 <= n <= self.nodes().len(),
                forall|m: int| 1 <= m < n ==> #[trigger] reaches_root(*self, m, self.num_tokens() as nat),
            decreases self.nodes().len() - n,
        {
            if !self.walks_to_root(n) {
                return false;
            }
            n = n + 1;
        }
        true
    }

    /// Tests well-formedness; sentences handed back by unverified code
    /// (a tagger) go through this.
    pub fn check_wf(&self) -> (r: bool)
        ensures
            r == self.wf(),
    {
        let n_nodes = self.nodes.len();
        if n_nodes == 0 {
            return false;
        }
        match &self.nodes[0] {
            Node::Token(_) => {
                return false;
            },
            Node::Root => {},
        }
        let mut n: usize = 1;
        while n < n_nodes
            invariant
                n_nodes == self.nodes@.len(),
                1 <= n <= n_nodes,
                forall|m: int|
                    1 <= m < n ==> (#[trigger] self.nodes()[m] is Token && self.nodes()[m]->Token_0.wf(
                        n_nodes as int,
                    )),
            decreases n_nodes - n,
        {
            match &self.nodes[n] {
                Node::Root => {
                    return false;
                },
                Node::Token(t) => {
                    if !t.features.check_wf() || !t.misc.check_wf() {
                        return false;
                    }
                    match &t.head {
                        Some(e) => {
                            if e.head >= n_nodes {
                                return false;
                            }
                        },
                        None => {},
                    }
                },
            }
            n = n + 1;
        }
        true
    }

    /// A view of token `idx`, counting from 0.
    pub fn token_at(&self, idx: isize) -> (r: Result<PyToken<'_>, AnnotateError>)
        requires
            self.wf(),
        ensures
            (0 <= idx < self.num_tokens()) <==> r is Ok,
            r matches Ok(t) ==> t.sentence() == *self && t.node() == idx + 1,
            r matches Err(e) ==> e == AnnotateError::IndexOutOfRange,
    {
        if idx < 0 || idx as usize >= self.nodes.len() - 1 {
            Err(AnnotateError::IndexOutOfRange)
        } else {
            Ok(PyToken { sent: self, node: idx as usize + 1 })
        }
    }

    /// A view of the root node.
    pub fn root(&self) -> (r: PyToken<'_>)
        ensures
            r.sentence() == *self,
            r.node() == 0,
    {
        PyToken { sent: self, node: 0 }
    }

    /// An iterator over the tokens, in order.
    pub fn iter(&self) -> (r: PySentenceIterator<'_>)
        ensures
            r.sentence() == *self,
            r.next_node() == 1,
    {
        PySentenceIterator { sent: self, idx: 1 }
    }

    /// Sets the lemma and the two part-of-speech tags of token `idx`.
    pub fn set_tags(
        &mut self,
        idx: usize,
        lemma: Option<String>,
        upos: Option<String>,
        xpos: Option<String>,
    ) -> (r: Result<(), AnnotateError>)
        requires
            old(self).wf(),
        ensures
            final(self).wf(),
            r is Ok <==> idx < old(self).num_tokens(),
            r matches Err(e) ==> e == AnnotateError::IndexOutOfRange && *final(self) == *old(self),
            r is Ok ==> {
                &&& final(self).nodes().len() == old(self).nodes().len()
                &&& forall|m: int| 0 <= m < old(self).nodes().len() && m != idx + 1
                    ==> #[trigger] final(self).nodes()[m] == old(self).nodes()[m]
                &&& final(self).token(idx as int) == (Token { lemma, upos, xpos, ..old(self).token(idx as int) })
            },
    {
        if idx >= self.nodes.len() - 1 {
            return Err(AnnotateError::IndexOutOfRange);
        }
        let n = idx + 1;
        let mut node = Node::Root;
        std::mem::swap(&mut node, &mut self.nodes[n]);
        let node = match node {
            Node::Token(t) => Node::Token(Token { lemma, upos, xpos, ..t }),
            Node::Root => Node::Root,
        };
        self.nodes.set(n, node);
        Ok(())
    }

    /// Sets the head of token `idx` to node `head` (0 is the root), with
    /// relation `relation`.
    pub fn set_head(&mut self, idx: usize, head: usize, relation: Option<String>) -> (r: Result<
        (),
        AnnotateError,
    >)
        requires
            old(self).wf(),
        ensures
            final(self).wf(),
            r is Ok <==> idx < old(self).num_tokens() && head <= old(self).num_tokens(),
            r matches Err(e) ==> e == AnnotateError::IndexOutOfRange && *final(self) == *old(self),
            r is Ok ==> {
                &&& final(self).nodes().len() == old(self).nodes().len()
                &&& forall|m: int| 0 <= m < old(self).nodes().len() && m != idx + 1
                    ==> #[trigger] final(self).nodes()[m] == old(self).nodes()[m]
                &&& final(self).token(idx as int) == (Token {
                    head: Some(DepEdge { head, relation }),
                    ..old(self).token(idx as int)
                })
            },
    {
        if idx >= self.nodes.len() - 1 || head >= self.nodes.len() {
            return Err(AnnotateError::IndexOutOfRange);
        }
        let n = idx + 1;
        let mut node = Node::Root;
        std::mem::swap(&mut node, &mut self.nodes[n]);
        let node = match node {
            Node::Token(t) => Node::Token(Token { head: Some(DepEdge { head, relation }), ..t }),
            Node::Root => Node::Root,
        };
        self.nodes.set(n, node);
        Ok(())
    }
}

/// A read-only view of one node of a sentence.
#[derive(Debug)]
pub struct PyToken<'a> {
    sent: &'a PySentence,
    node: usize,
}

impl<'a> PyToken<'a> {
    /// The sentence viewed.
    pub closed spec fn sentence(&self) -> PySentence {
        *self.sent
    }

    /// The node index viewed (0 is the root).
    pub closed spec fn node(&self) -> int {
        self.node as int
    }

    pub open spec fn wf(&self) -> bool {
        self.sentence().wf() && 0 <= self.node() < self.sentence().nodes().len()
    }

    /// The token viewed; `None` for the root.
    pub open spec fn payload(&self) -> Option<Token> {
        payload(self.sentence().nodes()[self.node()])
    }

    /// The sentence viewed.
    pub fn sentence_ref(&self) -> (r: &'a PySentence)
        ensures
            *r == self.sentence(),
    {
        self.sent
    }

    /// The node index viewed (0 is the root).
    pub fn node_index(&self) -> (r: usize)
        ensures
            r == self.node(),
    {
        self.node
    }

    /// The form; `None` for the root.
    pub fn form(&self) -> (r: Option<String>)
        requires
            self.wf(),
        ensures
            r == (match self.payload() {
                Some(t) => Some(t.form),
                None => None,
            }),
    {
        match &self.sent.nodes[self.node] {
            Node::Token(t) => Some(t.form.clone()),
            Node::Root => None,
        }
    }

    /// The lemma; `None` for the root or where there is none.
    pub fn lemma(&self) -> (r: Option<String>)
        requires
            self.wf(),
        ensures
            r == (match self.payload() {
                Some(t) => t.lemma,
                None => None,
            }),
    {
        match &self.sent.nodes[self.node] {
            Node::Token(t) => clone_opt(&t.lemma),
            Node::Root => None,
        }
    }

    /// The universal part-of-speech tag; `None` for the root or where there is none.
    pub fn upos(&self) -> (r: Option<String>)
        requires
            self.wf(),
        ensures
            r == (match self.payload() {
                Some(t) => t.upos,
                None => None,
            }),
    {
        match &self.sent.nodes[self.node] {
            Node::Token(t) => clone_opt(&t.upos),
            Node::Root => None,
        }
    }

    /// The language-specific part-of-speech tag; `None` for the root or where there is none.
    pub fn xpos(&self) -> (r: Option<String>)
        requires
            self.wf(),
        ensures
            r == (match self.payload() {
                Some(t) => t.xpos,
                None => None,
            }),
    {
        match &self.sent.nodes[self.node] {
            Node::Token(t) => clone_opt(&t.xpos),
            Node::Root => None,
        }
    }

    /// The node index of the head; `None` for the root or where there is none.
    pub fn head(&self) -> (r: Option<usize>)
        requires
            self.wf(),
        ensures
            r == (match self.payload() {
                Some(t) => match t.head {
                    Some(e) => Some(e.head),
                    None => None,
                },
                None => None,
            }),
    {
        match &self.sent.nodes[self.node] {
            Node::Token(t) => match &t.head {
                Some(e) => Some(e.head),
                None => None,
            },
            Node::Root => None,
        }
    }

    /// The relation to the head; `None` for the root or where there is none.
    pub fn head_rel(&self) -> (r: Option<String>)
        requires
            self.wf(),
        ensures
            r == (match self.payload() {
                Some(t) => match t.head {
                    Some(e) => e.relation,
                    None => None,
                },
                None => None,
            }),
    {
        match &self.sent.nodes[self.node] {
            Node::Token(t) => match &t.head {
                Some(e) => clone_opt(&e.relation),
                None => None,
            },
            Node::Root => None,
        }
    }

    /// A handle on the morphological features of this node.
    pub fn features(&self) -> (r: PyFeatures)
        ensures
            r.node == self.node(),
    {
        PyFeatures { node: self.node }
    }

    /// A handle on the miscellaneous features of this node.
    pub fn misc(&self) -> (r: PyMisc)
        ensures
            r.node == self.node(),
    {
        PyMisc { node: self.node }
    }
}

/// Walks the tokens of a sentence in order; each call of `iter` starts anew.
pub struct PySentenceIterator<'a> {
    sent: &'a PySentence,
    idx: usize,
}

impl<'a> PySentenceIterator<'a> {
    pub closed spec fn sentence(&self) -> PySentence {
        *self.sent
    }

    /// The node that the next call of `next` returns a view of.
    pub closed spec fn next_node(&self) -> int {
        self.idx as int
    }

    /// A view of the next token, or `None` past the last one.
    pub fn next(&mut self) -> (r: Option<PyToken<'a>>)
        requires
            old(self).sentence().wf(),
            old(self).next_node() >= 1,
        ensures
            final(self).sentence() == old(self).sentence(),
            old(self).next_node() < old(self).sentence().nodes().len() ==> {
                &&& r matches Some(t)
                &&& t.sentence() == old(self).sentence()
                &&& t.node() == old(self).next_node()
                &&& final(self).next_node() == old(self).next_node() + 1
            },
            old(self).next_node() >= old(self).sentence().nodes().len() ==> r is None
                && final(self).next_node() == old(self).next_node(),
    {
        if self.idx < self.sent.nodes.len() {
            let t = PyToken { sent: self.sent, node: self.idx };
            self.idx = self.idx + 1;
            Some(t)
        } else {
            None
        }
    }
}

/// A handle on the morphological features of one node; the sentence is
/// passed to each call, so that editing it needs exclusive access to it.
#[derive(Debug, Clone, Copy)]
pub struct PyFeatures {
    pub node: usize,
}

impl PyFeatures {
    /// Whether the features hold `key`.
    pub fn contains(&self, sent: &PySentence, key: &String) -> (r: Result<bool, AnnotateError>)
        requires
            sent.wf(),
        ensures
            r == (match feature_view(*sent, self.node as int) {
                Err(e) => Err(e),
                Ok(m) => Ok(m.contains_key(key@)),
            }),
    {
        if self.node >= sent.nodes.len() {
            return Err(AnnotateError::IndexOutOfRange);
        }
        match &sent.nodes[self.node] {
            Node::Root => Err(AnnotateError::InvalidOperation),
            Node::Token(t) => Ok(t.features.contains_key(key)),
        }
    }

    /// The value of `key`.
    pub fn get(&self, sent: &PySentence, key: &String) -> (r: Result<String, AnnotateError>)
        requires
            sent.wf(),
        ensures
            r == feature_lookup(feature_view(*sent, self.node as int), key@),
    {
        if self.node >= sent.nodes.len() {
            return Err(AnnotateError::IndexOutOfRange);
        }
        match &sent.nodes[self.node] {
            Node::Root => Err(AnnotateError::InvalidOperation),
            Node::Token(t) => match t.features.get(key) {
                Some(v) => Ok(v.clone()),
                None => Err(AnnotateError::UnknownKey),
            },
        }
    }

    /// Stores `value` under `key`.
    pub fn set(&self, sent: &mut PySentence, key: String, value: String) -> (r: Result<(), AnnotateError>)
        requires
            old(sent).wf(),
        ensures
            final(sent).wf(),
            r == (match feature_view(*old(sent), self.node as int) {
                Err(e) => Err(e),
                Ok(_) => Ok(()),
            }),
            r is Err ==> *final(sent) == *old(sent),
            r is Ok ==> same_but_feature_maps(*old(sent), *final(sent), self.node as int)
                && misc_view(*final(sent), self.node as int) == misc_view(*old(sent), self.node as int)
                && feature_view(*final(sent), self.node as int) == Ok::<_, AnnotateError>(
                feature_view(*old(sent), self.node as int)->Ok_0.insert(key@, value)),
    {
        if self.node >= sent.nodes.len() {
            return Err(AnnotateError::IndexOutOfRange);
        }
        if let Node::Root = &sent.nodes[self.node] {
            return Err(AnnotateError::InvalidOperation);
        }
        let mut node = Node::Root;
        std::mem::swap(&mut node, &mut sent.nodes[self.node]);
        match node {
            Node::Root => {
                sent.nodes.set(self.node, Node::Root);
                Err(AnnotateError::InvalidOperation)
            },
            Node::Token(mut t) => {
                t.features.insert(key, value);
                sent.nodes.set(self.node, Node::Token(t));
                Ok(())
            },
        }
    }

    /// Removes `key`.
    pub fn delete(&self, sent: &mut PySentence, key: &String) -> (r: Result<(), AnnotateError>)
        requires
            old(sent).wf(),
        ensures
            final(sent).wf(),
            r == removal_result(feature_view(*old(sent), self.node as int), key@),
            r is Err ==> *final(sent) == *old(sent),
            r is Ok ==> same_but_feature_maps(*old(sent), *final(sent), self.node as int)
                && misc_view(*final(sent), self.node as int) == misc_view(*old(sent), self.node as int)
                && feature_view(*final(sent), self.node as int) == Ok::<_, AnnotateError>(
                feature_view(*old(sent), self.node as int)->Ok_0.remove(key@)),
    {
        if self.node >= sent.nodes.len() {
            return Err(AnnotateError::IndexOutOfRange);
        }
        let present = match &sent.nodes[self.node] {
            Node::Root => {
                return Err(AnnotateError::InvalidOperation);
            },
            Node::Token(t) => t.features.contains_key(key),
        };
        if !present {
            return Err(AnnotateError::UnknownKey);
        }
        let mut node = Node::Root;
        std::mem::swap(&mut node, &mut sent.nodes[self.node]);
        match node {
            Node::Root => {
                sent.nodes.set(self.node, Node::Root);
                Err(AnnotateError::InvalidOperation)
            },
            Node::Token(mut t) => {
                t.features.remove(key);
                sent.nodes.set(self.node, Node::Token(t));
                Ok(())
            },
        }
    }
}

/// A handle on the miscellaneous features of one node.
///
/// A key may be present without a value: `contains` reports such a key,
/// `get` treats it as absent, `delete` removes it, and the rendering leaves
/// it out.
#[derive(Debug, Clone, Copy)]
pub struct PyMisc {
    pub node: usize,
}

impl PyMisc {
    /// Whether the misc features hold `key`, with or without a value.
    pub fn contains(&self, sent: &PySentence, key: &String) -> (r: Result<bool, AnnotateError>)
        requires
            sent.wf(),
        ensures
            r == (match misc_view(*sent, self.node as int) {
                Err(e) => Err(e),
                Ok(m) => Ok(m.contains_key(key@)),
            }),
    {
        if self.node >= sent.nodes.len() {
            return Err(AnnotateError::IndexOutOfRange);
        }
        match &sent.nodes[self.node] {
            Node::Root => Err(AnnotateError::InvalidOperation),
            Node::Token(t) => Ok(t.misc.contains_key(key)),
        }
    }

    /// The value of `key`.
    pub fn get(&self, sent: &PySentence, key: &String) -> (r: Result<String, AnnotateError>)
        requires
            sent.wf(),
        ensures
            r == misc_lookup(misc_view(*sent, self.node as int), key@),
    {
        if self.node >= sent.nodes.len() {
            return Err(AnnotateError::IndexOutOfRange);
        }
        match &sent.nodes[self.node] {
            Node::Root => Err(AnnotateError::InvalidOperation),
            Node::Token(t) => match t.misc.get(key) {
                Some(Some(v)) => Ok(v.clone()),
                _ => Err(AnnotateError::UnknownKey),
            },
        }
    }

    /// Stores `value` under `key`.
    pub fn set(&self, sent: &mut PySentence, key: String, value: String) -> (r: Result<(), AnnotateError>)
        requires
            old(sent).wf(),
        ensures
            final(sent).wf(),
            r == (match misc_view(*old(sent), self.node as int) {
                Err(e) => Err(e),
                Ok(_) => Ok(()),
            }),
            r is Err ==> *final(sent) == *old(sent),
            r is Ok ==> same_but_feature_maps(*old(sent), *final(sent), self.node as int)
                && feature_view(*final(sent), self.node as int) == feature_view(*old(sent), self.node as int)
                && misc_view(*final(sent), self.node as int) == Ok::<_, AnnotateError>(
                misc_view(*old(sent), self.node as int)->Ok_0.insert(key@, Some(value))),
    {
        if self.node >= sent.nodes.len() {
            return Err(AnnotateError::IndexOutOfRange);
        }
        if let Node::Root = &sent.nodes[self.node] {
            return Err(AnnotateError::InvalidOperation);
        }
        let mut node = Node::Root;
        std::mem::swap(&mut node, &mut sent.nodes[self.node]);
        match node {
            Node::Root => {
                sent.nodes.set(self.node, Node::Root);
                Err(AnnotateError::InvalidOperation)
            },
            Node::Token(mut t) => {
                t.misc.insert(key, Some(value));
                sent.nodes.set(self.node, Node::Token(t));
                Ok(())
            },
        }
    }

    /// Removes `key`, with or without a value.
    pub fn delete(&self, sent: &mut PySentence, key: &String) -> (r: Result<(), AnnotateError>)
        requires
            old(sent).wf(),
        ensures
            final(sent).wf(),
            r == removal_result(misc_view(*old(sent), self.node as int), key@),
            r is Err ==> *final(sent) == *old(sent),
            r is Ok ==> same_but_feature_maps(*old(sent), *final(sent), self.node as int)
                && feature_view(*final(sent), self.node as int) == feature_view(*old(sent), self.node as int)
                && misc_view(*final(sent), self.node as int) == Ok::<_, AnnotateError>(
                misc_view(*old(sent), self.node as int)->Ok_0.remove(key@)),
    {
        if self.node >= sent.nodes.len() {
            return Err(AnnotateError::IndexOutOfRange);
        }
        let present = match &sent.nodes[self.node] {
            Node::Root => {
                return Err(AnnotateError::InvalidOperation);
            },
            Node::Token(t) => t.misc.contains_key(key),
        };
        if !present {
            return Err(AnnotateError::UnknownKey);
        }
        let mut node = Node::Root;
        std::mem::swap(&mut node, &mut sent.nodes[self.node]);
        match node {
            Node::Root => {
                sent.nodes.set(self.node, Node::Root);
                Err(AnnotateError::InvalidOperation)
            },
            Node::Token(mut t) => {
                t.misc.remove(key);
                sent.nodes.set(self.node, Node::Token(t));
                Ok(())
            },
        }
    }
}

} // verus!
