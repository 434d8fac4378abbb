//! The credential store: the registration record, the token record, and
//! their two canonical persisted documents. The round-trip law at the
//! bottom shows that loading a saved document and saving it again
//! reproduces the document character for character.

use vstd::prelude::*;

use crate::InstanceKind;
use crate::json::{
    lemma_join_at, lemma_lit_at, lemma_lit_then_quoted, lemma_quoted_of_encoding,
    lemma_quoted_sound, lemma_split_at, parse_lit, parse_quoted, push_chars,
    push_quoted, quoted, scan_lit, scan_quoted, chars_eq,
};
use crate::text::{chars_to_string, string_to_chars};

verus! {

/// The per-instance app registration, created once per instance choice
/// and replaced wholesale when the user re-targets another instance.
#[derive(Debug)]
pub struct ClientState {
    pub client_id: String,
    pub client_secret: String,
    pub base_url: String,
    pub instance_type: InstanceKind,
}

/// The access token obtained from a successful code exchange, with its
/// opaque companion fields carried through unchanged.
#[derive(Debug)]
pub struct TokenData {
    pub access_token: String,
    pub token_type: String,
    pub scope: String,
}

/// The persisted authorization record: destroyed or replaced wholesale,
/// never partially updated.
#[derive(Debug)]
pub struct AuthState {
    pub token: TokenData,
}

#[verifier::ext_equal]
pub struct ClientStateView {
    pub client_id: Seq<char>,
    pub client_secret: Seq<char>,
    pub base_url: Seq<char>,
    pub instance_type: InstanceKind,
}

#[verifier::ext_equal]
pub struct TokenDataView {
    pub access_token: Seq<char>,
    pub token_type: Seq<char>,
    pub scope: Seq<char>,
}

#[verifier::ext_equal]
pub struct AuthStateView {
    pub token: TokenDataView,
}

impl View for ClientState {
    type V = ClientStateView;

    open spec fn view(&self) -> ClientStateView {
        ClientStateView {
            client_id: self.client_id@,
            client_secret: self.client_secret@,
            base_url: self.base_url@,
            instance_type: self.instance_type,
        }
    }
}

impl View for TokenData {
    type V = TokenDataView;

    open spec fn view(&self) -> TokenDataView {
        TokenDataView {
            access_token: self.access_token@,
            token_type: self.token_type@,
            scope: self.scope@,
        }
    }
}

impl View for AuthState {
    type V = AuthStateView;

    open spec fn view(&self) -> AuthStateView {
        AuthStateView { token: self.token@ }
    }
}

/// The name under which an instance kind is persisted.
pub open spec fn kind_name(k: InstanceKind) -> Seq<char> {
    match k {
        InstanceKind::Mastodon => "Mastodon"@,
        InstanceKind::Pleroma => "Pleroma"@,
        InstanceKind::Firefish => "Firefish"@,
        InstanceKind::Gotosocial => "Gotosocial"@,
        InstanceKind::Friendica => "Friendica"@,
    }
}

/// The instance kind a persisted name stands for, if any.
pub open spec fn kind_of_name(n: Seq<char>) -> Option<InstanceKind> {
    if n == "Mastodon"@ {
        Some(InstanceKind::Mastodon)
    } else if n == "Pleroma"@ {
        Some(InstanceKind::Pleroma)
    } else if n == "Firefish"@ {
        Some(InstanceKind::Firefish)
    } else if n == "Gotosocial"@ {
        Some(InstanceKind::Gotosocial)
    } else if n == "Friendica"@ {
        Some(InstanceKind::Friendica)
    } else {
        None
    }
}

/// The persisted kind names are pairwise distinct, so the name written
/// for a kind reads back as exactly that kind.
pub proof fn lemma_kind_name(k: InstanceKind)
    ensures
        kind_of_name(kind_name(k)) == Some(k),
{
    reveal_strlit("Mastodon");
    reveal_strlit("Pleroma");
    reveal_strlit("Firefish");
    reveal_strlit("Gotosocial");
    reveal_strlit("Friendica");
    assert("Mastodon"@.len() == 8);
    assert("Pleroma"@.len() == 7);
    assert("Firefish"@.len() == 8);
    assert("Gotosocial"@.len() == 10);
    assert("Friendica"@.len() == 9);
    assert("Firefish"@[0] == 'F');
    assert("Mastodon"@[0] == 'M');
    assert("Firefish"@ != "Mastodon"@);
}

/// The persisted name of an instance kind, as characters.
pub fn kind_to_chars(k: InstanceKind) -> (out: Vec<char>)
    ensures
        out@ == kind_name(k),
{
    match k {
        InstanceKind::Mastodon => string_to_chars("Mastodon"),
        InstanceKind::Pleroma => string_to_chars("Pleroma"),
        InstanceKind::Firefish => string_to_chars("Firefish"),
        InstanceKind::Gotosocial => string_to_chars("Gotosocial"),
        InstanceKind::Friendica => string_to_chars("Friendica"),
    }
}

/// The instance kind a persisted name stands for, if any.
pub fn kind_from_chars(n: &Vec<char>) -> (r: Option<InstanceKind>)
    ensures
        r == kind_of_name(n@),
{
    if chars_eq(n, &string_to_chars("Mastodon")) {
        Some(InstanceKind::Mastodon)
    } else if chars_eq(n, &string_to_chars("Pleroma")) {
        Some(InstanceKind::Pleroma)
    } else if chars_eq(n, &string_to_chars("Firefish")) {
        Some(InstanceKind::Firefish)
    } else if chars_eq(n, &string_to_chars("Gotosocial")) {
        Some(InstanceKind::Gotosocial)
    } else if chars_eq(n, &string_to_chars("Friendica")) {
        Some(InstanceKind::Friendica)
    } else {
        None
    }
}

pub open spec fn lit_client_head() -> Seq<char> {
    "{\"client_id\":"@
}

pub open spec fn lit_client_secret_key() -> Seq<char> {
    ",\"client_secret\":"@
}

pub open spec fn lit_base_url_key() -> Seq<char> {
    ",\"base_url\":"@
}

pub open spec fn lit_instance_key() -> Seq<char> {
    ",\"instance_type\":"@
}

pub open spec fn lit_obj_end() -> Seq<char> {
    "}"@
}

pub open spec fn lit_auth_head() -> Seq<char> {
    "{\"token\":{\"access_token\":"@
}

pub open spec fn lit_token_type_key() -> Seq<char> {
    ",\"token_type\":"@
}

pub open spec fn lit_scope_key() -> Seq<char> {
    ",\"scope\":"@
}

pub open spec fn lit_auth_end() -> Seq<char> {
    "}}"@
}

/// The canonical registration document for a registration record.
pub open spec fn client_doc(c: ClientStateView) -> Seq<char> {
    lit_client_head() + (quoted(c.client_id) + (lit_client_secret_key() + (quoted(
        c.client_secret,
    ) + (lit_base_url_key() + (quoted(c.base_url) + (lit_instance_key() + (quoted(
        kind_name(c.instance_type),
    ) + lit_obj_end())))))))
}

/// The canonical auth document for a token record.
pub open spec fn auth_doc(a: AuthStateView) -> Seq<char> {
    lit_auth_head() + (quoted(a.token.access_token) + (lit_token_type_key() + (quoted(
        a.token.token_type,
    ) + (lit_scope_key() + (quoted(a.token.scope) + lit_auth_end())))))
}

/// The reference parser for the registration document: accepts exactly
/// the canonical form, to its very end.
pub open spec fn parse_client_doc(s: Seq<char>) -> Option<ClientStateView> {
    match parse_lit(s, 0, lit_client_head()) {
        None => None,
        Some(i1) => match parse_quoted(s, i1) {
            None => None,
            Some((cid, i2)) => match parse_lit(s, i2, lit_client_secret_key()) {
                None => None,
                Some(i3) => match parse_quoted(s, i3) {
                    None => None,
                    Some((cs, i4)) => match parse_lit(s, i4, lit_base_url_key()) {
                        None => None,
                        Some(i5) => match parse_quoted(s, i5) {
                            None => None,
                            Some((url, i6)) => match parse_lit(s, i6, lit_instance_key()) {
                                None => None,
                                Some(i7) => match parse_quoted(s, i7) {
                                    None => None,
                                    Some((kn, i8)) => match parse_lit(s, i8, lit_obj_end()) {
                                        None => None,
                                        Some(i9) => if i9 == s.len() {
                                            match kind_of_name(kn) {
                                                None => None,
                                                Some(k) => Some(
                                                    ClientStateView {
                                                        client_id: cid,
                                                        client_secret: cs,
                                                        base_url: url,
                                                        instance_type: k,
                                                    },
                                                ),
                                            }
                                        } else {
                                            None
                                        },
                                    },
                                },
                            },
                        },
                    },
                },
            },
        },
    }
}

/// The reference parser for the auth document: accepts exactly the
/// canonical form, to its very end.
pub open spec fn parse_auth_doc(s: Seq<char>) -> Option<AuthStateView> {
    match parse_lit(s, 0, lit_auth_head()) {
        None => None,
        Some(i1) => match parse_quoted(s, i1) {
            None => None,
            Some((at, i2)) => match parse_lit(s, i2, lit_token_type_key()) {
                None => None,
                Some(i3) => match parse_quoted(s, i3) {
                    None => None,
                    Some((tt, i4)) => match parse_lit(s, i4, lit_scope_key()) {
                        None => None,
                        Some(i5) => match parse_quoted(s, i5) {
                            None => None,
                            Some((sc, i6)) => match parse_lit(s, i6, lit_auth_end()) {
                                None => None,
                                Some(i7) => if i7 == s.len() {
                                    Some(
                                        AuthStateView {
                                            token: TokenDataView {
                                                access_token: at,
                                                token_type: tt,
                                                scope: sc,
                                            },
                                        },
                                    )
                                } else {
                                    None
                                },
                            },
                        },
                    },
                },
            },
        },
    }
}

/// Write the canonical registration document for `c`.
pub fn encode_client_state(c: &ClientState) -> (out: Vec<char>)
    ensures
        out@ == client_doc(c@),
{
    let mut out: Vec<char> = Vec::new();
    let lit = string_to_chars("{\"client_id\":");
    push_chars(&lit, &mut out);
    let f = string_to_chars(c.client_id.as_str());
    push_quoted(&f, &mut out);
    let lit = string_to_chars(",\"client_secret\":");
    push_chars(&lit, &mut out);
    let f = string_to_chars(c.client_secret.as_str());
    push_quoted(&f, &mut out);
    let lit = string_to_chars(",\"base_url\":");
    push_chars(&lit, &mut out);
    let f = string_to_chars(c.base_url.as_str());
    push_quoted(&f, &mut out);
    let lit = string_to_chars(",\"instance_type\":");
    push_chars(&lit, &mut out);
    let kn = kind_to_chars(c.instance_type);
    push_quoted(&kn, &mut out);
    let lit = string_to_chars("}");
    push_chars(&lit, &mut out);
    proof {
        assert(out@ =~= client_doc(c@));
    }
    out
}

/// Write the canonical auth document for `a`.
pub fn encode_auth_state(a: &AuthState) -> (out: Vec<char>)
    ensures
        out@ == auth_doc(a@),
{
    let mut out: Vec<char> = Vec::new();
    let lit = string_to_chars("{\"token\":{\"access_token\":");
    push_chars(&lit, &mut out);
    let f = string_to_chars(a.token.access_token.as_str());
    push_quoted(&f, &mut out);
    let lit = string_to_chars(",\"token_type\":");
    push_chars(&lit, &mut out);
    let f = string_to_chars(a.token.token_type.as_str());
    push_quoted(&f, &mut out);
    let lit = string_to_chars(",\"scope\":");
    push_chars(&lit, &mut out);
    let f = string_to_chars(a.token.scope.as_str());
    push_quoted(&f, &mut out);
    let lit = string_to_chars("}}");
    push_chars(&lit, &mut out);
    proof {
        assert(out@ =~= auth_doc(a@));
    }
    out
}

/// Read a registration record back from document text; implements
/// `parse_client_doc`.
pub fn parse_client_state(s: &Vec<char>) -> (r: Option<ClientState>)
    ensures
        match r {
            Some(c) => parse_client_doc(s@) == Some(c@),
            None => parse_client_doc(s@) is None,
        },
{
    let i1 = match scan_lit(s, 0, &string_to_chars("{\"client_id\":")) {
        Some(i) => i,
        None => {
            return None;
        },
    };
    let (cid, i2) = match scan_quoted(s, i1) {
        Some(p) => p,
        None => {
            return None;
        },
    };
    let i3 = match scan_lit(s, i2, &string_to_chars(",\"client_secret\":")) {
        Some(i) => i,
        None => {
            return None;
        },
    };
    let (cs, i4) = match scan_quoted(s, i3) {
        Some(p) => p,
        None => {
            return None;
        },
    };
    let i5 = match scan_lit(s, i4, &string_to_chars(",\"base_url\":")) {
        Some(i) => i,
        None => {
            return None;
        },
    };
    let (url, i6) = match scan_quoted(s, i5) {
        Some(p) => p,
        None => {
            return None;
        },
    };
    let i7 = match scan_lit(s, i6, &string_to_chars(",\"instance_type\":")) {
        Some(i) => i,
        None => {
            return None;
        },
    };
    let (kn, i8) = match scan_quoted(s, i7) {
        Some(p) => p,
        None => {
            return None;
        },
    };
    let i9 = match scan_lit(s, i8, &string_to_chars("}")) {
        Some(i) => i,
        None => {
            return None;
        },
    };
    if i9 != s.len() {
        return None;
    }
    let k = match kind_from_chars(&kn) {
        Some(k) => k,
        None => {
            return None;
        },
    };
    Some(
        ClientState {
            client_id: chars_to_string(&cid),
            client_secret: chars_to_string(&cs),
            base_url: chars_to_string(&url),
            instance_type: k,
        },
    )
}

/// Read a token record back from document text; implements
/// `parse_auth_doc`.
pub fn parse_auth_state(s: &Vec<char>) -> (r: Option<AuthState>)
    ensures
        match r {
            Some(a) => parse_auth_doc(s@) == Some(a@),
            None => parse_auth_doc(s@) is None,
        },
{
    let i1 = match scan_lit(s, 0, &string_to_chars("{\"token\":{\"access_token\":")) {
        Some(i) => i,
        None => {
            return None;
        },
    };
    let (at, i2) = match scan_quoted(s, i1) {
        Some(p) => p,
        None => {
            return None;
        },
    };
    let i3 = match scan_lit(s, i2, &string_to_chars(",\"token_type\":")) {
        Some(i) => i,
        None => {
            return None;
        },
    };
    let (tt, i4) = match scan_quoted(s, i3) {
        Some(p) => p,
        None => {
            return None;
        },
    };
    let i5 = match scan_lit(s, i4, &string_to_chars(",\"scope\":")) {
        Some(i) => i,
        None => {
            return None;
        },
    };
    let (sc, i6) = match scan_quoted(s, i5) {
        Some(p) => p,
        None => {
            return None;
        },
    };
    let i7 = match scan_lit(s, i6, &string_to_chars("}}")) {
        Some(i) => i,
        None => {
            return None;
        },
    };
    if i7 != s.len() {
        return None;
    }
    Some(
        AuthState {
            token: TokenData {
                access_token: chars_to_string(&at),
                token_type: chars_to_string(&tt),
                scope: chars_to_string(&sc),
            },
        },
    )
}

/// Serialize both records to their persisted documents. Writing the two
/// files, and creating the configuration directory, is the shell's job;
/// the two writes are independent and not atomic as a pair.
pub fn save_state(client: &ClientState, auth: &AuthState) -> (docs: (String, String))
    ensures
        docs.0@ == client_doc(client@),
        docs.1@ == auth_doc(auth@),
{
    let c = encode_client_state(client);
    let a = encode_auth_state(auth);
    (chars_to_string(&c), chars_to_string(&a))
}

/// Rebuild the in-memory records from whatever document text the shell
/// found on disk. A missing or unreadable document degrades to the
/// logged-out state; a token without a registration is treated as
/// invalid and dropped.
pub fn load_state(client_text: Option<&str>, auth_text: Option<&str>) -> (r: (
    Option<ClientState>,
    Option<AuthState>,
))
    ensures
        r.0 is Some <==> (client_text is Some && parse_client_doc(client_text.unwrap()@) is Some),
        r.0 is Some ==> parse_client_doc(client_text.unwrap()@) == Some(r.0.unwrap()@),
        r.1 is Some <==> (r.0 is Some && auth_text is Some && parse_auth_doc(auth_text.unwrap()@)
            is Some),
        r.1 is Some ==> parse_auth_doc(auth_text.unwrap()@) == Some(r.1.unwrap()@),
{
    let client = match client_text {
        None => {
            return (None, None);
        },
        Some(t) => {
            let v = string_to_chars(t);
            match parse_client_state(&v) {
                None => {
                    return (None, None);
                },
                Some(c) => c,
            }
        },
    };
    let auth = match auth_text {
        None => None,
        Some(t) => {
            let v = string_to_chars(t);
            parse_auth_state(&v)
        },
    };
    (Some(client), auth)
}

/// Round-trip law: the canonical documents written for any
/// registration/token pair parse back to exactly that pair, so saving
/// what was loaded reproduces both persisted documents character for
/// character.
pub proof fn lemma_save_load_round_trip(c: ClientStateView, a: AuthStateView)
    ensures
        parse_client_doc(client_doc(c)) == Some(c),
        parse_auth_doc(auth_doc(a)) == Some(a),
{
    lemma_client_doc_round_trip(c);
    lemma_auth_doc_round_trip(a);
}

/// Only canonical documents are accepted: whatever registration text
/// parses is exactly the document that would be written for the record
/// it yields, so any accepted persisted document survives a load/save
/// cycle character for character.
#[verifier::rlimit(100)]
pub proof fn lemma_client_doc_sound(s: Seq<char>)
    requires
        parse_client_doc(s) is Some,
    ensures
        client_doc(parse_client_doc(s).unwrap()) == s,
{
    let a1 = lit_client_head();
    let a2 = lit_client_secret_key();
    let a3 = lit_base_url_key();
    let a4 = lit_instance_key();
    let a5 = lit_obj_end();
    let i1 = parse_lit(s, 0, a1).unwrap();
    lemma_quoted_sound(s, i1);
    let (cid, i2) = parse_quoted(s, i1).unwrap();
    let i3 = parse_lit(s, i2, a2).unwrap();
    lemma_quoted_sound(s, i3);
    let (cs, i4) = parse_quoted(s, i3).unwrap();
    let i5 = parse_lit(s, i4, a3).unwrap();
    lemma_quoted_sound(s, i5);
    let (url, i6) = parse_quoted(s, i5).unwrap();
    let i7 = parse_lit(s, i6, a4).unwrap();
    lemma_quoted_sound(s, i7);
    let (kn, i8) = parse_quoted(s, i7).unwrap();
    let i9 = parse_lit(s, i8, a5).unwrap();
    let k = kind_of_name(kn).unwrap();
    assert(kn == kind_name(k));
    let q1 = quoted(cid);
    let q2 = quoted(cs);
    let q3 = quoted(url);
    let q4 = quoted(kn);
    lemma_join_at(s, i7, q4, a5);
    lemma_join_at(s, i6, a4, q4 + a5);
    lemma_join_at(s, i5, q3, a4 + (q4 + a5));
    lemma_join_at(s, i4, a3, q3 + (a4 + (q4 + a5)));
    lemma_join_at(s, i3, q2, a3 + (q3 + (a4 + (q4 + a5))));
    lemma_join_at(s, i2, a2, q2 + (a3 + (q3 + (a4 + (q4 + a5)))));
    lemma_join_at(s, i1, q1, a2 + (q2 + (a3 + (q3 + (a4 + (q4 + a5))))));
    lemma_join_at(s, 0, a1, q1 + (a2 + (q2 + (a3 + (q3 + (a4 + (q4 + a5)))))));
    assert(s.subrange(0, s.len() as int) =~= s);
    assert(client_doc(parse_client_doc(s).unwrap()) == s);
}

/// Only canonical documents are accepted: whatever auth text parses is
/// exactly the document that would be written for the record it yields.
#[verifier::rlimit(100)]
pub proof fn lemma_auth_doc_sound(s: Seq<char>)
    requires
        parse_auth_doc(s) is Some,
    ensures
        auth_doc(parse_auth_doc(s).unwrap()) == s,
{
    let a1 = lit_auth_head();
    let a2 = lit_token_type_key();
    let a3 = lit_scope_key();
    let a4 = lit_auth_end();
    let i1 = parse_lit(s, 0, a1).unwrap();
    lemma_quoted_sound(s, i1);
    let (at, i2) = parse_quoted(s, i1).unwrap();
    let i3 = parse_lit(s, i2, a2).unwrap();
    lemma_quoted_sound(s, i3);
    let (tt, i4) = parse_quoted(s, i3).unwrap();
    let i5 = parse_lit(s, i4, a3).unwrap();
    lemma_quoted_sound(s, i5);
    let (sc, i6) = parse_quoted(s, i5).unwrap();
    let i7 = parse_lit(s, i6, a4).unwrap();
    let q1 = quoted(at);
    let q2 = quoted(tt);
    let q3 = quoted(sc);
    lemma_join_at(s, i5, q3, a4);
    lemma_join_at(s, i4, a3, q3 + a4);
    lemma_join_at(s, i3, q2, a3 + (q3 + a4));
    lemma_join_at(s, i2, a2, q2 + (a3 + (q3 + a4)));
    lemma_join_at(s, i1, q1, a2 + (q2 + (a3 + (q3 + a4))));
    lemma_join_at(s, 0, a1, q1 + (a2 + (q2 + (a3 + (q3 + a4)))));
    assert(s.subrange(0, s.len() as int) =~= s);
    assert(auth_doc(parse_auth_doc(s).unwrap()) == s);
}

/// The registration document parses back to the record it was written
/// for.
#[verifier::rlimit(100)]
pub proof fn lemma_client_doc_round_trip(c: ClientStateView)
    ensures
        parse_client_doc(client_doc(c)) == Some(c),
{
    let s = client_doc(c);
    let a1 = lit_client_head();
    let q1 = quoted(c.client_id);
    let a2 = lit_client_secret_key();
    let q2 = quoted(c.client_secret);
    let a3 = lit_base_url_key();
    let q3 = quoted(c.base_url);
    let a4 = lit_instance_key();
    let q4 = quoted(kind_name(c.instance_type));
    let a5 = lit_obj_end();
    let r3 = a2 + (q2 + (a3 + (q3 + (a4 + (q4 + a5)))));
    let r5 = a3 + (q3 + (a4 + (q4 + a5)));
    let r7 = a4 + (q4 + a5);
    assert(s.subrange(0, s.len() as int) =~= s);
    lemma_lit_then_quoted(s, 0, a1, c.client_id, r3);
    let i2: int = a1.len() + q1.len() as int;
    lemma_lit_then_quoted(s, i2, a2, c.client_secret, r5);
    let i4: int = i2 + a2.len() + q2.len();
    lemma_lit_then_quoted(s, i4, a3, c.base_url, r7);
    let i6: int = i4 + a3.len() + q3.len();
    lemma_lit_then_quoted(s, i6, a4, kind_name(c.instance_type), a5);
    let i8: int = i6 + a4.len() + q4.len();
    lemma_lit_at(s, i8, a5);
    lemma_kind_name(c.instance_type);
    assert(i8 + a5.len() == s.len());
    assert(parse_client_doc(s) == Some(c));
}

/// The auth document parses back to the record it was written for.
#[verifier::rlimit(100)]
pub proof fn lemma_auth_doc_round_trip(a: AuthStateView)
    ensures
        parse_auth_doc(auth_doc(a)) == Some(a),
{
    let s = auth_doc(a);
    let a1 = lit_auth_head();
    let q1 = quoted(a.token.access_token);
    let a2 = lit_token_type_key();
    let q2 = quoted(a.token.token_type);
    let a3 = lit_scope_key();
    let q3 = quoted(a.token.scope);
    let a4 = lit_auth_end();
    let r6 = q3 + a4;
    let r5 = a3 + r6;
    let r4 = q2 + r5;
    let r3 = a2 + r4;
    let r2 = q1 + r3;
    assert(s == a1 + r2);
    assert(s.subrange(0, s.len() as int) =~= s);
    lemma_split_at(s, 0, a1, r2);
    lemma_lit_at(s, 0, a1);
    let i1 = a1.len() as int;
    lemma_split_at(s, i1, q1, r3);
    lemma_quoted_of_encoding(a.token.access_token, s, i1);
    let i2 = i1 + q1.len();
    lemma_split_at(s, i2, a2, r4);
    lemma_lit_at(s, i2, a2);
    let i3 = i2 + a2.len();
    lemma_split_at(s, i3, q2, r5);
    lemma_quoted_of_encoding(a.token.token_type, s, i3);
    let i4 = i3 + q2.len();
    lemma_split_at(s, i4, a3, r6);
    lemma_lit_at(s, i4, a3);
    let i5 = i4 + a3.len();
    lemma_split_at(s, i5, q3, a4);
    lemma_quoted_of_encoding(a.token.scope, s, i5);
    let i6 = i5 + q3.len();
    lemma_lit_at(s, i6, a4);
    assert(i6 + a4.len() == s.len());
    assert(parse_auth_doc(s) == Some(a));
}

} // verus!
