//! Deterministically identified descriptions of node-configuring operations.
use vstd::prelude::*;
use vstd::string::*;

verus! {

/// Which side of a TCP portal an operation creates.
#[derive(Clone, Copy, Debug, PartialEq, Eq, Structural)]
pub enum PortalMode {
    Inlet,
    Outlet,
}

/// Transport protocol of a portal.
#[derive(Clone, Copy, Debug, PartialEq, Eq, Structural)]
pub enum Protocol {
    Tcp,
}

/// The operation a snippet replays.
#[derive(Clone, Debug)]
pub enum Operation {
    Portal { mode: PortalMode, protocol: Protocol, bind: String, peer: String },
}

/// One replayable, deterministically identified operation.
#[derive(Clone, Debug)]
pub struct ComposableSnippet {
    pub id: String,
    pub op: Operation,
    pub params: Vec<String>,
}

/// The word a portal mode contributes to a snippet id.
pub open spec fn mode_word(mode: PortalMode) -> Seq<char> {
    match mode {
        PortalMode::Inlet => "inlet"@,
        PortalMode::Outlet => "outlet"@,
    }
}

/// The word a protocol contributes to a snippet id.
pub open spec fn protocol_word(protocol: Protocol) -> Seq<char> {
    match protocol {
        Protocol::Tcp => "tcp"@,
    }
}

/// How one character of a field is written in an id: `\` as `\\`, `_` as
/// `\u`, any other character as itself. No field so written holds a `_`,
/// which is left to separate the fields.
pub open spec fn escape_char(c: char) -> Seq<char> {
    if c == '\\' {
        seq!['\\', '\\']
    } else if c == '_' {
        seq!['\\', 'u']
    } else {
        seq![c]
    }
}

/// A field as written in an id, character by character.
pub open spec fn escaped(s: Seq<char>) -> Seq<char>
    decreases s.len(),
{
    if s.len() == 0 {
        Seq::empty()
    } else {
        escaped(s.drop_last()) + escape_char(s.last())
    }
}

/// The id of a portal operation: `_portal_<mode>_<protocol>_<bind>_<peer>`,
/// with bind and peer escaped.
pub open spec fn portal_id(mode: PortalMode, protocol: Protocol, bind: Seq<char>, peer: Seq<char>) -> Seq<char> {
    "_portal_"@ + mode_word(mode) + "_"@ + protocol_word(protocol) + "_"@ + escaped(bind) + "_"@
        + escaped(peer)
}

/// Whether a text holds no `_`, the separator between the fields of an id.
pub open spec fn has_no_separator(s: Seq<char>) -> bool {
    forall|i: int| 0 <= i < s.len() ==> s[i] != '_'
}

proof fn lemma_split_at_separator(b1: Seq<char>, q1: Seq<char>, b2: Seq<char>, q2: Seq<char>)
    requires
        has_no_separator(b1),
        has_no_separator(b2),
        b1 + "_"@ + q1 == b2 + "_"@ + q2,
    ensures
        b1 == b2,
        q1 == q2,
{
    reveal_strlit("_");
    let s1 = b1 + "_"@ + q1;
    let s2 = b2 + "_"@ + q2;
    if b1.len() < b2.len() {
        assert(s1[b1.len() as int] == '_');
        assert(s2[b1.len() as int] == b2[b1.len() as int]);
    } else if b2.len() < b1.len() {
        assert(s2[b2.len() as int] == '_');
        assert(s1[b2.len() as int] == b1[b2.len() as int]);
    } else {
        assert(b1 =~= s1.subrange(0, b1.len() as int));
        assert(b2 =~= s2.subrange(0, b2.len() as int));
        assert(q1 =~= s1.subrange(b1.len() as int + 1, s1.len() as int));
        assert(q2 =~= s2.subrange(b2.len() as int + 1, s2.len() as int));
    }
}

proof fn lemma_escaped_has_no_separator(s: Seq<char>)
    ensures
        has_no_separator(escaped(s)),
    decreases s.len(),
{
    if s.len() > 0 {
        lemma_escaped_has_no_separator(s.drop_last());
    }
}

proof fn lemma_escaped_front(s: Seq<char>)
    requires
        s.len() > 0,
    ensures
        escaped(s) == escape_char(s[0]) + escaped(s.drop_first()),
    decreases s.len(),
{
    if s.len() == 1 {
        assert(s.drop_last() =~= Seq::<char>::empty());
        assert(s.drop_first() =~= Seq::<char>::empty());
        assert(escaped(s) =~= escape_char(s[0]) + escaped(s.drop_first()));
    } else {
        lemma_escaped_front(s.drop_last());
        assert(s.drop_last().drop_first() =~= s.drop_first().drop_last());
        assert(s.drop_first().last() == s.last());
        assert(escaped(s) =~= escape_char(s[0]) + escaped(s.drop_first()));
    }
}

proof fn lemma_escaped_injective(a: Seq<char>, b: Seq<char>)
    requires
        escaped(a) == escaped(b),
    ensures
        a == b,
    decreases a.len(),
{
    if a.len() > 0 {
        lemma_escaped_front(a);
    }
    if b.len() > 0 {
        lemma_escaped_front(b);
    }
    if a.len() > 0 && b.len() > 0 {
        let e = escaped(a);
        assert(e[0] == escape_char(a[0])[0]);
        assert(e[0] == escape_char(b[0])[0]);
        if escape_char(a[0]).len() == 2 {
            assert(e[1] == escape_char(a[0])[1]);
            assert(e[1] == escape_char(b[0])[1]);
        }
        assert(a[0] == b[0]);
        let k = escape_char(a[0]).len() as int;
        assert(escaped(a.drop_first()) =~= e.subrange(k, e.len() as int));
        assert(escaped(b.drop_first()) =~= e.subrange(k, e.len() as int));
        lemma_escaped_injective(a.drop_first(), b.drop_first());
        assert(a =~= b) by {
            assert forall|i: int| 0 <= i < a.len() implies a[i] == b[i] by {
                if i > 0 {
                    assert(a[i] == a.drop_first()[i - 1]);
                    assert(b[i] == b.drop_first()[i - 1]);
                }
            }
        }
    }
}

/// Snippet ids are a pure function of the operation's fields, and distinct
/// portal operations get distinct ids: two TCP portal operations have the
/// same id exactly when their mode, bind and peer agree.
pub proof fn lemma_portal_id_identity(
    m1: PortalMode,
    b1: Seq<char>,
    q1: Seq<char>,
    m2: PortalMode,
    b2: Seq<char>,
    q2: Seq<char>,
)
    ensures
        (portal_id(m1, Protocol::Tcp, b1, q1) == portal_id(m2, Protocol::Tcp, b2, q2)) <==> (m1
            == m2 && b1 == b2 && q1 == q2),
{
    reveal_strlit("_portal_");
    reveal_strlit("_");
    reveal_strlit("inlet");
    reveal_strlit("outlet");
    reveal_strlit("tcp");
    let id1 = portal_id(m1, Protocol::Tcp, b1, q1);
    let id2 = portal_id(m2, Protocol::Tcp, b2, q2);
    if id1 == id2 {
        assert(id1[8] == mode_word(m1)[0]);
        assert(id2[8] == mode_word(m2)[0]);
        assert(m1 == m2);
        let head = "_portal_"@ + mode_word(m1) + "_"@ + "tcp"@ + "_"@;
        let e1 = escaped(b1) + "_"@ + escaped(q1);
        let e2 = escaped(b2) + "_"@ + escaped(q2);
        assert(id1 =~= head + e1);
        assert(id2 =~= head + e2);
        assert(e1 =~= id1.subrange(head.len() as int, id1.len() as int));
        assert(e2 =~= id2.subrange(head.len() as int, id2.len() as int));
        lemma_escaped_has_no_separator(b1);
        lemma_escaped_has_no_separator(b2);
        lemma_split_at_separator(escaped(b1), escaped(q1), escaped(b2), escaped(q2));
        lemma_escaped_injective(b1, b2);
        lemma_escaped_injective(q1, q2);
    }
}

impl PortalMode {
    pub fn word(&self) -> (r: &'static str)
        ensures
            r@ == mode_word(*self),
    {
        proof {
            reveal_strlit("inlet");
            reveal_strlit("outlet");
        }
        match self {
            PortalMode::Inlet => "inlet",
            PortalMode::Outlet => "outlet",
        }
    }
}

impl Protocol {
    pub fn word(&self) -> (r: &'static str)
        ensures
            r@ == protocol_word(*self),
    {
        proof {
            reveal_strlit("tcp");
        }
        match self {
            Protocol::Tcp => "tcp",
        }
    }
}

/// Appends `s`, escaped, to `out`.
fn append_escaped(out: &mut String, s: &str)
    ensures
        final(out)@ == old(out)@ + escaped(s@),
{
    let n = s.unicode_len();
    let mut i: usize = 0;
    while i < n
        invariant
            n == s@.len(),
            i <= n,
            out@ == old(out)@ + escaped(s@.take(i as int)),
        decreases n - i,
    {
        let c = s.get_char(i);
        let ghost before = out@;
        if c == '\\' {
            out.append("\\\\");
            proof {
                reveal_strlit("\\\\");
            }
            assert(out@ =~= before + seq!['\\', '\\']);
        } else if c == '_' {
            out.append("\\u");
            proof {
                reveal_strlit("\\u");
            }
            assert(out@ =~= before + seq!['\\', 'u']);
        } else {
            out.append(s.substring_char(i, i + 1));
            assert(s@.subrange(i as int, i + 1) =~= seq![c]);
        }
        assert(out@ =~= before + escape_char(c));
        assert(s@.take(i + 1).drop_last() =~= s@.take(i as int));
        assert(s@.take(i + 1).last() == c);
        assert(out@ =~= old(out)@ + escaped(s@.take(i + 1)));
        i = i + 1;
    }
    assert(s@.take(n as int) =~= s@);
}

/// Computes the deterministic id of a portal operation.
pub fn portal_snippet_id(mode: PortalMode, protocol: Protocol, bind: &str, peer: &str) -> (r: String)
    ensures
        r@ == portal_id(mode, protocol, bind@, peer@),
{
    proof {
        reveal_strlit("_portal_");
        reveal_strlit("_");
    }
    let mut id = String::from_str("_portal_");
    id.append(mode.word());
    id.append("_");
    id.append(protocol.word());
    id.append("_");
    append_escaped(&mut id, bind);
    id.append("_");
    append_escaped(&mut id, peer);
    id
}

impl ComposableSnippet {
    /// Whether this snippet describes exactly the given portal operation,
    /// with no parameters and the id derived from it.
    pub open spec fn is_portal(self, mode: PortalMode, bind: Seq<char>, peer: Seq<char>) -> bool {
        &&& self.id@ == portal_id(mode, Protocol::Tcp, bind, peer)
        &&& self.params@.len() == 0
        &&& match self.op {
            Operation::Portal { mode: m, protocol: p, bind: b, peer: q } => m == mode && p
                == Protocol::Tcp && b@ == bind && q@ == peer,
        }
    }

    /// Builds the snippet of a TCP portal operation.
    pub fn portal(mode: PortalMode, bind: String, peer: String) -> (r: ComposableSnippet)
        ensures
            r.is_portal(mode, bind@, peer@),
    {
        let id = portal_snippet_id(mode, Protocol::Tcp, bind.as_str(), peer.as_str());
        ComposableSnippet {
            id,
            op: Operation::Portal { mode, protocol: Protocol::Tcp, bind, peer },
            params: Vec::new(),
        }
    }
}

} // verus!
