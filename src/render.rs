use vstd::prelude::*;
use crate::error::AnnotateError;
use crate::keyed::KeyedMap;
use crate::sentence::{DepEdge, Node, PyFeatures, PyMisc, PySentence, PyToken, Token, payload};
use crate::text::{decimal, decimal_string, join, join_strings, views};

verus! {

/// `name = 'value'`
pub open spec fn quoted_attr(name: Seq<char>, value: Seq<char>) -> Seq<char> {
    name + " = '"@ + value + "'"@
}

/// The attribute `name`, where the value is there.
pub open spec fn opt_attr(name: Seq<char>, value: Option<String>) -> Seq<Seq<char>> {
    match value {
        Some(v) => seq![quoted_attr(name, v@)],
        None => Seq::empty(),
    }
}

/// The head and the relation, where there are.
pub open spec fn head_attrs(head: Option<DepEdge>) -> Seq<Seq<char>> {
    match head {
        Some(e) => seq!["head = "@ + decimal(e.head as nat)] + match e.relation {
            Some(rel) => seq!["relation = "@ + rel@],
            None => Seq::empty(),
        },
        None => Seq::empty(),
    }
}

/// The attributes that a token lists: form, tags, head and relation.
pub open spec fn token_attrs(t: Token) -> Seq<Seq<char>> {
    seq![quoted_attr("form"@, t.form@)] + opt_attr("upos"@, t.upos) + opt_attr("xpos"@, t.xpos)
        + head_attrs(t.head)
}

/// `Root`, or `Token(form = '...', ...)`.
pub open spec fn token_repr(p: Option<Token>) -> Seq<char> {
    match p {
        None => "Root"@,
        Some(t) => "Token("@ + join(token_attrs(t), ", "@) + ")"@,
    }
}

/// `"key": "value"`
pub open spec fn pair_repr(k: Seq<char>, v: Seq<char>) -> Seq<char> {
    "\""@ + k + "\": \""@ + v + "\""@
}

/// The listed pairs of a feature map, in its order.
pub open spec fn feature_pairs(entries: Seq<(String, String)>) -> Seq<Seq<char>> {
    entries.map_values(|e: (String, String)| pair_repr(e.0@, e.1@))
}

/// The listed pairs of a misc map, in its order; keys without a value are
/// left out.
pub open spec fn misc_pairs(entries: Seq<(String, Option<String>)>) -> Seq<Seq<char>>
    decreases entries.len(),
{
    if entries.len() == 0 {
        Seq::empty()
    } else {
        let e = entries.last();
        misc_pairs(entries.drop_last()) + match e.1 {
            Some(v) => seq![pair_repr(e.0@, v@)],
            None => Seq::empty(),
        }
    }
}

/// `Features {"key": "value", ...}`; empty braces for the root.
pub open spec fn features_repr(p: Option<Token>) -> Seq<char> {
    "Features {"@ + match p {
        Some(t) => join(feature_pairs(t.features.entries()), ", "@),
        None => Seq::empty(),
    } + "}"@
}

/// `Misc {"key": "value", ...}`; empty braces for the root.
pub open spec fn misc_repr(p: Option<Token>) -> Seq<char> {
    "Misc {"@ + match p {
        Some(t) => join(misc_pairs(t.misc.entries()), ", "@),
        None => Seq::empty(),
    } + "}"@
}

/// The tokens of a sentence, each as `token_repr` gives it.
pub open spec fn sentence_repr(s: PySentence) -> Seq<char> {
    "Sentence(["@ + join(
        Seq::new(s.num_tokens() as nat, |i: int| token_repr(payload(s.nodes()[i + 1]))),
        ", "@,
    ) + "])"@
}

fn quoted_attr_string(name: &str, value: &str) -> (r: String)
    ensures
        r@ == quoted_attr(name@, value@),
{
    let mut r = String::from_str(name);
    r.append(" = '");
    r.append(value);
    r.append("'");
    r
}

fn pair_string(k: &str, v: &str) -> (r: String)
    ensures
        r@ == pair_repr(k@, v@),
{
    let mut r = String::from_str("\"");
    r.append(k);
    r.append("\": \"");
    r.append(v);
    r.append("\"");
    r
}

fn push_opt_attr(attrs: &mut Vec<String>, name: &str, value: &Option<String>)
    ensures
        views(final(attrs)@) == views(old(attrs)@) + opt_attr(name@, *value),
{
    match value {
        Some(v) => {
            attrs.push(quoted_attr_string(name, v.as_str()));
        },
        None => {},
    }
    assert(views(final(attrs)@) =~= views(old(attrs)@) + opt_attr(name@, *value));
}

/// The rendering of a node's payload.
fn payload_repr(node: &Node) -> (r: String)
    ensures
        r@ == token_repr(payload(*node)),
{
    match node {
        Node::Root => String::from_str("Root"),
        Node::Token(t) => {
            let mut attrs: Vec<String> = Vec::new();
            attrs.push(quoted_attr_string("form", t.form.as_str()));
            push_opt_attr(&mut attrs, "upos", &t.upos);
            push_opt_attr(&mut attrs, "xpos", &t.xpos);
            let ghost before = views(attrs@);
            match &t.head {
                Some(e) => {
                    let mut h = String::from_str("head = ");
                    h.append(decimal_string(e.head).as_str());
                    attrs.push(h);
                    match &e.relation {
                        Some(rel) => {
                            let mut x = String::from_str("relation = ");
                            x.append(rel.as_str());
                            attrs.push(x);
                        },
                        None => {},
                    }
                },
                None => {},
            }
            assert(views(attrs@) =~= before + head_attrs(t.head));
            assert(views(attrs@) =~= token_attrs(*t));
            let mut r = String::from_str("Token(");
            r.append(join_strings(&attrs, ", ").as_str());
            r.append(")");
            r
        },
    }
}

impl<'a> PyToken<'a> {
    /// `Root`, or `Token(form = '...', upos = '...', xpos = '...', head = n,
    /// relation = ...)` with the attributes that are there.
    pub fn repr(&self) -> (r: String)
        requires
            self.wf(),
        ensures
            r@ == token_repr(self.payload()),
    {
        payload_repr(&self.sentence_ref().inner()[self.node_index()])
    }
}

impl PySentence {
    /// `Sentence([...])`, with the rendering of each token.
    pub fn repr(&self) -> (r: String)
        requires
            self.wf(),
        ensures
            r@ == sentence_repr(*self),
    {
        let nodes = self.inner();
        let ghost parts = Seq::new(
            self.num_tokens() as nat,
            |i: int| token_repr(payload(self.nodes()[i + 1])),
        );
        let mut reprs: Vec<String> = Vec::new();
        let mut n: usize = 1;
        while n < nodes.len()
            invariant
                nodes@ == self.nodes(),
                1 <= n <= nodes@.len(),
                parts.len() == nodes@.len() - 1,
                forall|j: int| 0 <= j < parts.len() ==> #[trigger] parts[j] == token_repr(payload(nodes@[j + 1])),
                views(reprs@) == parts.take(n - 1),
            decreases nodes@.len() - n,
        {
            let ghost prev = reprs@;
            let x = payload_repr(&nodes[n]);
            assert(x@ == parts[n - 1]);
            reprs.push(x);
            assert(views(reprs@) =~= views(prev).push(x@));
            assert(parts.take(n as int) =~= parts.take(n - 1).push(parts[n - 1]));
            assert(views(reprs@) =~= parts.take(n as int));
            n = n + 1;
        }
        assert(parts.take(parts.len() as int) =~= parts);
        let mut r = String::from_str("Sentence([");
        r.append(join_strings(&reprs, ", ").as_str());
        r.append("])");
        r
    }
}

/// The listed pairs of a feature map.
fn feature_pair_strings(m: &KeyedMap<String>) -> (r: Vec<String>)
    requires
        m.wf(),
    ensures
        views(r@) == feature_pairs(m.entries()),
{
    let mut r: Vec<String> = Vec::new();
    let mut i: usize = 0;
    let n = m.len();
    while i < n
        invariant
            m.wf(),
            n == m.entries().len(),
            i <= n,
            views(r@) == feature_pairs(m.entries().take(i as int)),
        decreases n - i,
    {
        let e = m.entry(i);
        let ghost prev = r@;
        let x = pair_string(e.0.as_str(), e.1.as_str());
        r.push(x);
        assert(views(r@) =~= views(prev).push(x@));
        assert(m.entries().take(i + 1) =~= m.entries().take(i as int).push(*e));
        assert(views(r@) =~= feature_pairs(m.entries().take(i + 1)));
        i = i + 1;
    }
    assert(m.entries().take(n as int) =~= m.entries());
    r
}

/// The listed pairs of a misc map.
fn misc_pair_strings(m: &KeyedMap<Option<String>>) -> (r: Vec<String>)
    requires
        m.wf(),
    ensures
        views(r@) == misc_pairs(m.entries()),
{
    let mut r: Vec<String> = Vec::new();
    let mut i: usize = 0;
    let n = m.len();
    while i < n
        invariant
            m.wf(),
            n == m.entries().len(),
            i <= n,
            views(r@) == misc_pairs(m.entries().take(i as int)),
        decreases n - i,
    {
        let e = m.entry(i);
        proof {
            assert(m.entries().take(i + 1).drop_last() =~= m.entries().take(i as int));
        }
        match &e.1 {
            Some(v) => {
                r.push(pair_string(e.0.as_str(), v.as_str()));
            },
            None => {},
        }
        assert(views(r@) =~= misc_pairs(m.entries().take(i + 1)));
        i = i + 1;
    }
    assert(m.entries().take(n as int) =~= m.entries());
    r
}

impl PyFeatures {
    /// `Features {"key": "value", ...}` in the map's order; empty braces
    /// for the root.
    pub fn repr(&self, sent: &PySentence) -> (r: Result<String, AnnotateError>)
        requires
            sent.wf(),
        ensures
            self.node >= sent.nodes().len() ==> r == Err::<String, _>(AnnotateError::IndexOutOfRange),
            self.node < sent.nodes().len() ==> (r matches Ok(text) && text@ == features_repr(
                payload(sent.nodes()[self.node as int]),
            )),
    {
        let nodes = sent.inner();
        if self.node >= nodes.len() {
            return Err(AnnotateError::IndexOutOfRange);
        }
        let mut r = String::from_str("Features {");
        match &nodes[self.node] {
            Node::Root => {},
            Node::Token(t) => {
                r.append(join_strings(&feature_pair_strings(&t.features), ", ").as_str());
            },
        }
        r.append("}");
        Ok(r)
    }
}

impl PyMisc {
    /// `Misc {"key": "value", ...}` in the map's order, keys without a value
    /// left out; empty braces for the root.
    pub fn repr(&self, sent: &PySentence) -> (r: Result<String, AnnotateError>)
        requires
            sent.wf(),
        ensures
            self.node >= sent.nodes().len() ==> r == Err::<String, _>(AnnotateError::IndexOutOfRange),
            self.node < sent.nodes().len() ==> (r matches Ok(text) && text@ == misc_repr(
                payload(sent.nodes()[self.node as int]),
            )),
    {
        let nodes = sent.inner();
        if self.node >= nodes.len() {
            return Err(AnnotateError::IndexOutOfRange);
        }
        let mut r = String::from_str("Misc {");
        match &nodes[self.node] {
            Node::Root => {},
            Node::Token(t) => {
                r.append(join_strings(&misc_pair_strings(&t.misc), ", ").as_str());
            },
        }
        r.append("}");
        Ok(r)
    }
}

} // verus!
