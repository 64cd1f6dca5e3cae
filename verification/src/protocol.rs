//! The messages that a launcher and its worker exchange, and their form on the wire.
//!
//! Every message travels in an envelope: the name of its kind as a text field,
//! then its payload as one field. A payload is the message's own fields in
//! order, each a text field; the environment of a spawn request follows its
//! other fields as pairs of name and value, to the end of the payload.

use vstd::prelude::*;
use vstd::slice::*;
use vstd::utf8::*;
use crate::error::{Error, Result};
use crate::os::command::bindings;
use crate::wire::{
    frame, lemma_frame_unframe, lemma_unframe_frame, read_frame, read_text, unframe, write_frame,
};

verus! {

/// The kinds of message.
#[derive(Clone, Copy, Debug, PartialEq, Eq, Structural)]
pub enum Kind {
    Register,
    Spawn,
    Okay,
    Error,
}

/// A message.
#[derive(Clone, Debug, PartialEq, Eq)]
pub enum Command {
    /// The worker names the channel on which it listens for replies.
    Register { pipe: String },
    /// The worker asks for a process to be started.
    Spawn { binary: String, svc_user: String, svc_group: String, env: Vec<(String, String)> },
    /// The request was carried out.
    Okay,
    /// The request was not carried out.
    Error { reason: String },
}

/// A message as a mathematical value.
pub enum CommandView {
    Register { pipe: Seq<char> },
    Spawn {
        binary: Seq<char>,
        svc_user: Seq<char>,
        svc_group: Seq<char>,
        env: Seq<(Seq<char>, Seq<char>)>,
    },
    Okay,
    Error { reason: Seq<char> },
}

/// The wrapper around a payload that says of which kind it is.
#[derive(Clone, Debug, PartialEq, Eq)]
pub struct Envelope {
    pub message_id: String,
    pub payload: Vec<u8>,
}

/// An envelope as a mathematical value.
pub struct EnvelopeView {
    pub message_id: Seq<char>,
    pub payload: Seq<u8>,
}

impl View for Command {
    type V = CommandView;

    open spec fn view(&self) -> CommandView {
        match self {
            Command::Register { pipe } => CommandView::Register { pipe: pipe@ },
            Command::Spawn { binary, svc_user, svc_group, env } => CommandView::Spawn {
                binary: binary@,
                svc_user: svc_user@,
                svc_group: svc_group@,
                env: bindings(env@),
            },
            Command::Okay => CommandView::Okay,
            Command::Error { reason } => CommandView::Error { reason: reason@ },
        }
    }
}

impl View for Envelope {
    type V = EnvelopeView;

    open spec fn view(&self) -> EnvelopeView {
        EnvelopeView { message_id: self.message_id@, payload: self.payload@ }
    }
}

/// The name under which a kind travels.
pub open spec fn kind_name(kind: Kind) -> Seq<char> {
    match kind {
        Kind::Register => "Register"@,
        Kind::Spawn => "Spawn"@,
        Kind::Okay => "Ok"@,
        Kind::Error => "Error"@,
    }
}

/// The kind that travels under a name, if the name is known.
pub open spec fn kind_named(name: Seq<char>) -> Option<Kind> {
    if name == "Register"@ {
        Some(Kind::Register)
    } else if name == "Spawn"@ {
        Some(Kind::Spawn)
    } else if name == "Ok"@ {
        Some(Kind::Okay)
    } else if name == "Error"@ {
        Some(Kind::Error)
    } else {
        None
    }
}

/// A text is short enough for a length prefix.
pub open spec fn text_fits(s: Seq<char>) -> bool {
    encode_utf8(s).len() <= u64::MAX
}

/// A text field: the field whose content is the UTF-8 form of `s`.
pub open spec fn text(s: Seq<char>) -> Seq<u8> {
    frame(encode_utf8(s))
}

/// The text of the text field that opens `input`, and what follows the field.
pub open spec fn untext(input: Seq<u8>) -> Option<(Seq<char>, Seq<u8>)> {
    match unframe(input) {
        Some((data, rest)) => if valid_utf8(data) {
            Some((decode_utf8(data), rest))
        } else {
            None
        },
        None => None,
    }
}

/// The text of a text field that fills `input` to its end.
pub open spec fn sole_text(input: Seq<u8>) -> Option<Seq<char>> {
    match untext(input) {
        Some((s, rest)) => if rest.len() == 0 {
            Some(s)
        } else {
            None
        },
        None => None,
    }
}

/// The bytes of an environment: for each binding its name, then its value.
pub open spec fn env_wire(env: Seq<(Seq<char>, Seq<char>)>) -> Seq<u8>
    decreases env.len(),
{
    if env.len() == 0 {
        Seq::<u8>::empty()
    } else {
        text(env[0].0) + text(env[0].1) + env_wire(env.drop_first())
    }
}

/// The environment that `input` holds, if it is a run of whole bindings.
pub open spec fn parse_env(input: Seq<u8>) -> Option<Seq<(Seq<char>, Seq<char>)>>
    decreases input.len(),
{
    if input.len() == 0 {
        Some(Seq::<(Seq<char>, Seq<char>)>::empty())
    } else {
        match untext(input) {
            Some((name, after_name)) => match untext(after_name) {
                Some((value, rest)) => if rest.len() < input.len() {
                    match parse_env(rest) {
                        Some(more) => Some(seq![(name, value)] + more),
                        None => None,
                    }
                } else {
                    None
                },
                None => None,
            },
            None => None,
        }
    }
}

/// No name is bound twice: the environment is a mapping from names to values.
pub open spec fn distinct_names(env: Seq<(Seq<char>, Seq<char>)>) -> bool {
    forall|i: int, j: int| 0 <= i < j < env.len() ==> (#[trigger] env[i]).0 != (#[trigger] env[j]).0
}

/// Every binding of the environment is short enough for its length prefixes.
pub open spec fn env_fits(env: Seq<(Seq<char>, Seq<char>)>) -> bool {
    forall|i: int| 0 <= i < env.len() ==> text_fits(#[trigger] env[i].0) && text_fits(env[i].1)
}

impl EnvelopeView {
    /// The envelope on the wire.
    pub open spec fn wire(self) -> Seq<u8> {
        text(self.message_id) + frame(self.payload)
    }
}

/// The envelope that `input` holds, if it is one and nothing more.
pub open spec fn parse_envelope(input: Seq<u8>) -> Option<EnvelopeView> {
    match untext(input) {
        Some((message_id, rest)) => match unframe(rest) {
            Some((payload, tail)) => if tail.len() == 0 {
                Some(EnvelopeView { message_id, payload })
            } else {
                None
            },
            None => None,
        },
        None => None,
    }
}

impl CommandView {
    pub open spec fn kind(self) -> Kind {
        match self {
            CommandView::Register { .. } => Kind::Register,
            CommandView::Spawn { .. } => Kind::Spawn,
            CommandView::Okay => Kind::Okay,
            CommandView::Error { .. } => Kind::Error,
        }
    }

    /// The message's own fields on the wire.
    pub open spec fn payload(self) -> Seq<u8> {
        match self {
            CommandView::Register { pipe } => text(pipe),
            CommandView::Spawn { binary, svc_user, svc_group, env } => text(binary) + text(svc_user)
                + text(svc_group) + env_wire(env),
            CommandView::Okay => Seq::<u8>::empty(),
            CommandView::Error { reason } => text(reason),
        }
    }

    /// The envelope in which the message travels.
    pub open spec fn envelope(self) -> EnvelopeView {
        EnvelopeView { message_id: kind_name(self.kind()), payload: self.payload() }
    }

    /// The message on the wire.
    pub open spec fn wire(self) -> Seq<u8> {
        self.envelope().wire()
    }

    /// The environment of a spawn request binds no name twice.
    pub open spec fn well_formed(self) -> bool {
        match self {
            CommandView::Spawn { env, .. } => distinct_names(env),
            _ => true,
        }
    }

    /// Every field, and the payload as a whole, is short enough for a length prefix.
    pub open spec fn fits(self) -> bool {
        &&& self.payload().len() <= u64::MAX
        &&& match self {
            CommandView::Register { pipe } => text_fits(pipe),
            CommandView::Spawn { binary, svc_user, svc_group, env } => text_fits(binary)
                && text_fits(svc_user) && text_fits(svc_group) && env_fits(env),
            CommandView::Okay => true,
            CommandView::Error { reason } => text_fits(reason),
        }
    }
}

/// The message of kind `kind` that the payload `input` holds. An environment
/// that binds a name twice is no environment.
pub open spec fn parse_payload(input: Seq<u8>, kind: Kind) -> Option<CommandView> {
    match kind {
        Kind::Register => match sole_text(input) {
            Some(pipe) => Some(CommandView::Register { pipe }),
            None => None,
        },
        Kind::Spawn => match untext(input) {
            Some((binary, r1)) => match untext(r1) {
                Some((svc_user, r2)) => match untext(r2) {
                    Some((svc_group, r3)) => match parse_env(r3) {
                        Some(env) => if distinct_names(env) {
                            Some(CommandView::Spawn { binary, svc_user, svc_group, env })
                        } else {
                            None
                        },
                        None => None,
                    },
                    None => None,
                },
                None => None,
            },
            None => None,
        },
        Kind::Okay => if input.len() == 0 {
            Some(CommandView::Okay)
        } else {
            None
        },
        Kind::Error => match sole_text(input) {
            Some(reason) => Some(CommandView::Error { reason }),
            None => None,
        },
    }
}

/// The message of kind `kind` that the envelope in `input` carries. The name
/// on the envelope is not consulted: the reader says what it expects.
pub open spec fn parse_command(input: Seq<u8>, kind: Kind) -> Option<CommandView> {
    match parse_envelope(input) {
        Some(envelope) => parse_payload(envelope.payload, kind),
        None => None,
    }
}

/// A text field is read back as it was written, whatever follows it.
pub proof fn lemma_untext_text(s: Seq<char>, rest: Seq<u8>)
    requires
        text_fits(s),
    ensures
        untext(text(s) + rest) == Some((s, rest)),
        text(s).len() >= 8,
{
    lemma_unframe_frame(encode_utf8(s), rest);
    encode_utf8_valid_utf8(s);
    encode_utf8_decode_utf8(s);
}

/// An environment is read back as it was written.
pub proof fn lemma_env_round_trip(env: Seq<(Seq<char>, Seq<char>)>)
    requires
        env_fits(env),
    ensures
        parse_env(env_wire(env)) == Some(env),
    decreases env.len(),
{
    if env.len() == 0 {
        assert(env =~= Seq::<(Seq<char>, Seq<char>)>::empty());
    } else {
        let name = env[0].0;
        let value = env[0].1;
        let more = env.drop_first();
        assert forall|i: int| 0 <= i < more.len() implies text_fits(#[trigger] more[i].0)
            && text_fits(more[i].1) by {
            assert(more[i] == env[i + 1]);
        }
        lemma_env_round_trip(more);
        let tail = env_wire(more);
        assert(env_wire(env) =~= text(name) + (text(value) + tail));
        lemma_untext_text(name, text(value) + tail);
        lemma_untext_text(value, tail);
        assert(seq![(name, value)] + more =~= env);
    }
}

/// Writing one more binding appends its two text fields.
pub proof fn lemma_env_wire_push(env: Seq<(Seq<char>, Seq<char>)>, name: Seq<char>, value: Seq<char>)
    ensures
        env_wire(env.push((name, value))) == env_wire(env) + text(name) + text(value),
    decreases env.len(),
{
    let longer = env.push((name, value));
    if env.len() == 0 {
        assert(longer.drop_first() =~= Seq::<(Seq<char>, Seq<char>)>::empty());
        assert(env_wire(longer.drop_first()) =~= Seq::<u8>::empty());
        assert(env_wire(longer) =~= env_wire(env) + text(name) + text(value));
    } else {
        lemma_env_wire_push(env.drop_first(), name, value);
        assert(longer.drop_first() =~= env.drop_first().push((name, value)));
        assert(env_wire(longer) =~= env_wire(env) + text(name) + text(value));
    }
}

/// An envelope is read back as it was written.
pub proof fn lemma_envelope_round_trip(e: EnvelopeView)
    requires
        text_fits(e.message_id),
        e.payload.len() <= u64::MAX,
    ensures
        parse_envelope(e.wire()) == Some(e),
{
    lemma_untext_text(e.message_id, frame(e.payload));
    lemma_unframe_frame(e.payload, Seq::<u8>::empty());
    assert(frame(e.payload) + Seq::<u8>::empty() =~= frame(e.payload));
}

/// A payload is read back as the message it was written from.
pub proof fn lemma_payload_round_trip(c: CommandView)
    requires
        c.fits(),
        c.well_formed(),
    ensures
        parse_payload(c.payload(), c.kind()) == Some(c),
{
    let nothing = Seq::<u8>::empty();
    match c {
        CommandView::Register { pipe } => {
            lemma_untext_text(pipe, nothing);
            assert(text(pipe) + nothing =~= text(pipe));
        },
        CommandView::Spawn { binary, svc_user, svc_group, env } => {
            let tail = env_wire(env);
            assert(c.payload() =~= text(binary) + (text(svc_user) + (text(svc_group) + tail)));
            lemma_untext_text(binary, text(svc_user) + (text(svc_group) + tail));
            lemma_untext_text(svc_user, text(svc_group) + tail);
            lemma_untext_text(svc_group, tail);
            lemma_env_round_trip(env);
        },
        CommandView::Okay => {},
        CommandView::Error { reason } => {
            lemma_untext_text(reason, nothing);
            assert(text(reason) + nothing =~= text(reason));
        },
    }
}

/// Whatever a text field is read from is that field as it would be written,
/// followed by what was left over.
pub proof fn lemma_text_untext(input: Seq<u8>)
    requires
        untext(input) is Some,
    ensures
        input == text(untext(input).unwrap().0) + untext(input).unwrap().1,
        text_fits(untext(input).unwrap().0),
        untext(input).unwrap().1.len() + 8 <= input.len(),
{
    lemma_frame_unframe(input);
    decode_utf8_encode_utf8(unframe(input).unwrap().0);
}

/// Whatever an environment is read from is that environment as it would be written.
pub proof fn lemma_env_parse_is_exact(input: Seq<u8>)
    requires
        parse_env(input) is Some,
    ensures
        env_wire(parse_env(input).unwrap()) == input,
        env_fits(parse_env(input).unwrap()),
    decreases input.len(),
{
    let env = parse_env(input).unwrap();
    if input.len() == 0 {
        assert(env_wire(env) =~= input);
    } else {
        let (name, after_name) = untext(input).unwrap();
        let (value, rest) = untext(after_name).unwrap();
        let more = parse_env(rest).unwrap();
        lemma_text_untext(input);
        lemma_text_untext(after_name);
        lemma_env_parse_is_exact(rest);
        assert(env == seq![(name, value)] + more);
        assert(env.drop_first() =~= more);
        assert(env_wire(env) =~= input);
        assert forall|i: int| 0 <= i < env.len() implies text_fits(#[trigger] env[i].0) && text_fits(
            env[i].1,
        ) by {
            if i > 0 {
                assert(env[i] == more[i - 1]);
            }
        }
    }
}

/// Whatever a lone text field is read from is that field as it would be written.
pub proof fn lemma_sole_text_is_exact(input: Seq<u8>)
    requires
        sole_text(input) is Some,
    ensures
        text(sole_text(input).unwrap()) == input,
        text_fits(sole_text(input).unwrap()),
{
    lemma_text_untext(input);
    let (s, rest) = untext(input).unwrap();
    assert(text(s) + rest =~= text(s));
}

/// Whatever a spawn request is read from is that request's payload as it
/// would be written.
pub proof fn lemma_spawn_parse_is_exact(input: Seq<u8>)
    requires
        parse_payload(input, Kind::Spawn) is Some,
    ensures
        parse_payload(input, Kind::Spawn).unwrap().payload() == input,
        parse_payload(input, Kind::Spawn).unwrap() is Spawn,
        parse_payload(input, Kind::Spawn).unwrap().well_formed(),
        match parse_payload(input, Kind::Spawn).unwrap() {
            CommandView::Spawn { binary, svc_user, svc_group, env } => text_fits(binary)
                && text_fits(svc_user) && text_fits(svc_group) && env_fits(env),
            _ => false,
        },
{
    let (binary, r1) = untext(input).unwrap();
    let (svc_user, r2) = untext(r1).unwrap();
    let (svc_group, r3) = untext(r2).unwrap();
    let env = parse_env(r3).unwrap();
    lemma_text_untext(input);
    lemma_text_untext(r1);
    lemma_text_untext(r2);
    lemma_env_parse_is_exact(r3);
    let c = CommandView::Spawn { binary, svc_user, svc_group, env };
    assert(parse_payload(input, Kind::Spawn) == Some(c));
    assert(r2 == text(svc_group) + env_wire(env));
    assert(r1 == text(svc_user) + r2);
    assert(input == text(binary) + r1);
    assert(c.payload() == text(binary) + text(svc_user) + text(svc_group) + env_wire(env));
    assert(text(binary) + text(svc_user) + text(svc_group) + env_wire(env) =~= text(binary) + (text(
        svc_user,
    ) + (text(svc_group) + env_wire(env))));
}

/// Whatever a message is read from is that message's payload as it would be
/// written: no two payloads are read as the same message of one kind.
pub proof fn lemma_payload_parse_is_exact(input: Seq<u8>, kind: Kind)
    requires
        parse_payload(input, kind) is Some,
        input.len() <= u64::MAX,
    ensures
        parse_payload(input, kind).unwrap().payload() == input,
        parse_payload(input, kind).unwrap().kind() == kind,
        parse_payload(input, kind).unwrap().fits(),
        parse_payload(input, kind).unwrap().well_formed(),
{
    match kind {
        Kind::Register => {
            lemma_sole_text_is_exact(input);
        },
        Kind::Error => {
            lemma_sole_text_is_exact(input);
        },
        Kind::Spawn => {
            lemma_spawn_parse_is_exact(input);
        },
        Kind::Okay => {
            assert(CommandView::Okay.payload() =~= input);
        },
    }
}

/// Whatever an envelope is read from is that envelope as it would be written.
pub proof fn lemma_envelope_parse_is_exact(input: Seq<u8>)
    requires
        parse_envelope(input) is Some,
    ensures
        parse_envelope(input).unwrap().wire() == input,
        text_fits(parse_envelope(input).unwrap().message_id),
        parse_envelope(input).unwrap().payload.len() <= u64::MAX,
{
    let (message_id, rest) = untext(input).unwrap();
    let (payload, tail) = unframe(rest).unwrap();
    lemma_text_untext(input);
    lemma_frame_unframe(rest);
    assert(frame(payload) + tail =~= frame(payload));
}

/// Reading is the inverse of writing: bytes are read as a message of the
/// expected kind exactly when they are an envelope, under whatever name, whose
/// payload is that message as it would be written.
pub proof fn lemma_decode_is_exact(input: Seq<u8>, kind: Kind, c: CommandView)
    ensures
        parse_command(input, kind) == Some(c) <==> {
            &&& c.kind() == kind
            &&& c.fits()
            &&& c.well_formed()
            &&& exists|message_id: Seq<char>|
                text_fits(message_id) && input == (#[trigger] EnvelopeView {
                    message_id,
                    payload: c.payload(),
                }.wire())
        },
{
    if parse_command(input, kind) == Some(c) {
        let e = parse_envelope(input).unwrap();
        lemma_envelope_parse_is_exact(input);
        lemma_payload_parse_is_exact(e.payload, kind);
        assert(e == EnvelopeView { message_id: e.message_id, payload: c.payload() });
    }
    if c.kind() == kind && c.fits() && c.well_formed() && exists|message_id: Seq<char>|
        text_fits(message_id) && input == (#[trigger] EnvelopeView {
            message_id,
            payload: c.payload(),
        }.wire()) {
        let message_id = choose|message_id: Seq<char>|
            text_fits(message_id) && input == (#[trigger] EnvelopeView {
                message_id,
                payload: c.payload(),
            }.wire());
        lemma_envelope_round_trip(EnvelopeView { message_id, payload: c.payload() });
        lemma_payload_round_trip(c);
    }
}

/// The UTF-8 form of a text has at most four bytes for each character.
pub proof fn lemma_utf8_len(s: Seq<char>)
    ensures
        encode_utf8(s).len() <= 4 * s.len(),
    decreases s.len(),
{
    if s.len() > 0 {
        lemma_utf8_len(s.drop_first());
    }
}

/// The names of the kinds are distinct, and short.
pub proof fn lemma_kind_names(kind: Kind)
    ensures
        kind_named(kind_name(kind)) == Some(kind),
        text_fits(kind_name(kind)),
{
    reveal_strlit("Register");
    reveal_strlit("Spawn");
    reveal_strlit("Ok");
    reveal_strlit("Error");
    lemma_utf8_len(kind_name(kind));
}

/// Every message is read back from its bytes as the message that was written,
/// by a reader that expects its kind, and its envelope names its kind.
pub proof fn lemma_round_trip(c: CommandView)
    requires
        c.fits(),
        c.well_formed(),
    ensures
        parse_command(c.wire(), c.kind()) == Some(c),
        parse_envelope(c.wire()) == Some(c.envelope()),
        kind_named(c.envelope().message_id) == Some(c.kind()),
{
    lemma_kind_names(c.kind());
    lemma_envelope_round_trip(c.envelope());
    lemma_payload_round_trip(c);
}

impl Kind {
    /// The name under which the kind travels.
    pub fn name(&self) -> (r: String)
        ensures
            r@ == kind_name(*self),
    {
        match self {
            Kind::Register => "Register".to_owned(),
            Kind::Spawn => "Spawn".to_owned(),
            Kind::Okay => "Ok".to_owned(),
            Kind::Error => "Error".to_owned(),
        }
    }

    /// The kind that travels under `name`, if there is one.
    pub fn named(name: &str) -> (r: Option<Kind>)
        ensures
            r == kind_named(name@),
    {
        let name = name.to_owned();
        if name == "Register".to_owned() {
            Some(Kind::Register)
        } else if name == "Spawn".to_owned() {
            Some(Kind::Spawn)
        } else if name == "Ok".to_owned() {
            Some(Kind::Okay)
        } else if name == "Error".to_owned() {
            Some(Kind::Error)
        } else {
            None
        }
    }
}

/// Appends to `out` the text field for `s`.
pub fn write_text(out: &mut Vec<u8>, s: &str)
    ensures
        final(out)@ == old(out)@ + text(s@),
        text_fits(s@),
{
    write_frame(out, s.as_bytes());
}

/// Reads the text field that starts at `start`: its text, and where the next
/// field starts.
pub fn read_text_frame(input: &[u8], start: usize) -> (r: Option<(String, usize)>)
    ensures
        start > input@.len() ==> r is None,
        start <= input@.len() ==> match untext(input@.subrange(start as int, input@.len() as int)) {
            None => r is None,
            Some((s, rest)) => {
                &&& r is Some
                &&& r.unwrap().0@ == s
                &&& start + 8 <= r.unwrap().1 <= input@.len()
                &&& input@.subrange(r.unwrap().1 as int, input@.len() as int) == rest
            },
        },
{
    match read_frame(input, start) {
        None => None,
        Some((from, to)) => match read_text(input, from, to) {
            None => None,
            Some(s) => Some((s, to)),
        },
    }
}

impl Envelope {
    /// The envelope on the wire.
    pub fn encode(&self) -> (r: Vec<u8>)
        ensures
            r@ == self@.wire(),
            text_fits(self@.message_id),
            self@.payload.len() <= u64::MAX,
    {
        let mut out: Vec<u8> = Vec::new();
        write_text(&mut out, self.message_id.as_str());
        write_frame(&mut out, self.payload.as_slice());
        assert(out@ =~= self@.wire());
        out
    }

    /// Reads the envelope that `bytes` hold; the bytes must hold one envelope
    /// and nothing more.
    pub fn decode(bytes: &[u8]) -> (r: Result<Envelope>)
        ensures
            match parse_envelope(bytes@) {
                Some(e) => r is Ok && r.unwrap()@ == e,
                None => r == Err::<Envelope, Error>(Error::Deserialize),
            },
    {
        assert(bytes@.subrange(0, bytes@.len() as int) =~= bytes@);
        let (message_id, pos) = match read_text_frame(bytes, 0) {
            Some(found) => found,
            None => return Err(Error::Deserialize),
        };
        let (from, to) = match read_frame(bytes, pos) {
            Some(found) => found,
            None => return Err(Error::Deserialize),
        };
        if to != bytes.len() {
            return Err(Error::Deserialize);
        }
        let payload = slice_to_vec(slice_subrange(bytes, from, to));
        Ok(Envelope { message_id, payload })
    }
}

/// The text of a text field that fills `input` to its end.
fn read_sole_text(input: &[u8]) -> (r: Option<String>)
    ensures
        match sole_text(input@) {
            Some(s) => r is Some && r.unwrap()@ == s,
            None => r is None,
        },
{
    assert(input@.subrange(0, input@.len() as int) =~= input@);
    match read_text_frame(input, 0) {
        Some((s, pos)) => if pos == input.len() {
            Some(s)
        } else {
            None
        },
        None => None,
    }
}

/// Reads the environment that fills `input` from `start` to its end.
fn read_env(input: &[u8], start: usize) -> (r: Option<Vec<(String, String)>>)
    requires
        start <= input@.len(),
    ensures
        match parse_env(input@.subrange(start as int, input@.len() as int)) {
            Some(env) => r is Some && bindings(r.unwrap()@) == env,
            None => r is None,
        },
{
    let len = input.len();
    let ghost whole = parse_env(input@.subrange(start as int, len as int));
    let mut env: Vec<(String, String)> = Vec::new();
    let mut pos = start;
    assert(bindings(env@) =~= Seq::<(Seq<char>, Seq<char>)>::empty());
    assert(whole is Some ==> bindings(env@) + whole.unwrap() =~= whole.unwrap());
    while pos < len
        invariant
            len == input@.len(),
            start <= pos <= len,
            whole == parse_env(input@.subrange(start as int, len as int)),
            whole == match parse_env(input@.subrange(pos as int, len as int)) {
                Some(more) => Some(bindings(env@) + more),
                None => None,
            },
        decreases len - pos,
    {
        let ghost here = input@.subrange(pos as int, len as int);
        let ghost before = bindings(env@);
        let (name, after_name) = match read_text_frame(input, pos) {
            Some(found) => found,
            None => return None,
        };
        let (value, next) = match read_text_frame(input, after_name) {
            Some(found) => found,
            None => return None,
        };
        let ghost rest = input@.subrange(next as int, len as int);
        let ghost pair = (name@, value@);
        env.push((name, value));
        proof {
            assert(bindings(env@) =~= before.push(pair));
            assert(parse_env(here) == match parse_env(rest) {
                Some(more) => Some(seq![pair] + more),
                None => None,
            });
            if parse_env(rest) is Some {
                let more = parse_env(rest).unwrap();
                assert(before + (seq![pair] + more) =~= before.push(pair) + more);
            }
        }
        pos = next;
    }
    proof {
        let nothing = Seq::<(Seq<char>, Seq<char>)>::empty();
        assert(input@.subrange(pos as int, len as int).len() == 0);
        assert(bindings(env@) + nothing =~= bindings(env@));
    }
    Some(env)
}

/// Whether `env` binds no name twice.
pub fn has_distinct_names(env: &Vec<(String, String)>) -> (r: bool)
    ensures
        r == distinct_names(bindings(env@)),
{
    let ghost names = bindings(env@);
    let mut j: usize = 0;
    while j < env.len()
        invariant
            j <= env.len(),
            names == bindings(env@),
            forall|a: int, b: int| 0 <= a < b < j ==> (#[trigger] names[a]).0 != (#[trigger] names[b]).0,
        decreases env.len() - j,
    {
        let mut i: usize = 0;
        while i < j
            invariant
                i <= j < env.len(),
                names == bindings(env@),
                forall|a: int| 0 <= a < i ==> (#[trigger] names[a]).0 != names[j as int].0,
            decreases j - i,
        {
            if env[i].0 == env[j].0 {
                assert(names[i as int].0 == names[j as int].0);
                return false;
            }
            i += 1;
        }
        j += 1;
    }
    true
}

impl Command {
    /// The kind of the message.
    pub fn kind(&self) -> (r: Kind)
        ensures
            r == self@.kind(),
    {
        match self {
            Command::Register { .. } => Kind::Register,
            Command::Spawn { .. } => Kind::Spawn,
            Command::Okay => Kind::Okay,
            Command::Error { .. } => Kind::Error,
        }
    }

    /// The message's own fields on the wire.
    pub fn payload(&self) -> (r: Vec<u8>)
        ensures
            r@ == self@.payload(),
            self@.fits(),
    {
        let mut out: Vec<u8> = Vec::new();
        match self {
            Command::Register { pipe } => {
                write_text(&mut out, pipe.as_str());
                assert(out@ =~= self@.payload());
            },
            Command::Spawn { binary, svc_user, svc_group, env } => {
                write_text(&mut out, binary.as_str());
                write_text(&mut out, svc_user.as_str());
                write_text(&mut out, svc_group.as_str());
                let ghost head = text(binary@) + text(svc_user@) + text(svc_group@);
                let ghost all = bindings(env@);
                assert(out@ =~= head + env_wire(all.subrange(0, 0)));
                let mut i: usize = 0;
                while i < env.len()
                    invariant
                        i <= env.len(),
                        all == bindings(env@),
                        out@ == head + env_wire(all.subrange(0, i as int)),
                        env_fits(all.subrange(0, i as int)),
                    decreases env.len() - i,
                {
                    let ghost done = all.subrange(0, i as int);
                    write_text(&mut out, env[i].0.as_str());
                    write_text(&mut out, env[i].1.as_str());
                    proof {
                        lemma_env_wire_push(done, env@[i as int].0@, env@[i as int].1@);
                        assert(all.subrange(0, i + 1) =~= done.push(all[i as int]));
                        assert(out@ =~= head + env_wire(all.subrange(0, i + 1)));
                    }
                    i += 1;
                }
                assert(all.subrange(0, env@.len() as int) =~= all);
            },
            Command::Okay => {},
            Command::Error { reason } => {
                write_text(&mut out, reason.as_str());
                assert(out@ =~= self@.payload());
            },
        }
        // A vector's length is a `usize`, so the payload fits a length prefix.
        assert(out.len() <= usize::MAX);
        out
    }

    /// Reads the message of kind `kind` that the payload `input` holds.
    pub fn parse(input: &[u8], kind: Kind) -> (r: Result<Command>)
        ensures
            match parse_payload(input@, kind) {
                Some(c) => r is Ok && r.unwrap()@ == c,
                None => r == Err::<Command, Error>(Error::Deserialize),
            },
    {
        match kind {
            Kind::Register => match read_sole_text(input) {
                Some(pipe) => Ok(Command::Register { pipe }),
                None => Err(Error::Deserialize),
            },
            Kind::Spawn => {
                assert(input@.subrange(0, input@.len() as int) =~= input@);
                let (binary, p1) = match read_text_frame(input, 0) {
                    Some(found) => found,
                    None => return Err(Error::Deserialize),
                };
                let (svc_user, p2) = match read_text_frame(input, p1) {
                    Some(found) => found,
                    None => return Err(Error::Deserialize),
                };
                let (svc_group, p3) = match read_text_frame(input, p2) {
                    Some(found) => found,
                    None => return Err(Error::Deserialize),
                };
                match read_env(input, p3) {
                    Some(env) => if has_distinct_names(&env) {
                        Ok(Command::Spawn { binary, svc_user, svc_group, env })
                    } else {
                        Err(Error::Deserialize)
                    },
                    None => Err(Error::Deserialize),
                }
            },
            Kind::Okay => if input.len() == 0 {
                Ok(Command::Okay)
            } else {
                Err(Error::Deserialize)
            },
            Kind::Error => match read_sole_text(input) {
                Some(reason) => Ok(Command::Error { reason }),
                None => Err(Error::Deserialize),
            },
        }
    }
}

/// The bytes that carry `command`: its payload in an envelope that names its
/// kind. A spawn request whose environment binds a name twice is refused with
/// `Serialize`; every other message has its bytes.
pub fn encode(command: &Command) -> (r: Result<Vec<u8>>)
    ensures
        command@.fits(),
        command@.well_formed() ==> r is Ok && r.unwrap()@ == command@.wire(),
        !command@.well_formed() ==> r == Err::<Vec<u8>, Error>(Error::Serialize),
{
    let payload = command.payload();
    if let Command::Spawn { env, .. } = command {
        if !has_distinct_names(env) {
            return Err(Error::Serialize);
        }
    }
    let mut out: Vec<u8> = Vec::new();
    let name = command.kind().name();
    write_text(&mut out, name.as_str());
    write_frame(&mut out, payload.as_slice());
    assert(out@ =~= command@.wire());
    Ok(out)
}

/// Reads from `bytes` the message of the kind that the caller expects. The
/// bytes must hold an envelope whose payload is a message of that kind; the
/// name on the envelope is not consulted.
pub fn decode(bytes: &[u8], expected: Kind) -> (r: Result<Command>)
    ensures
        match parse_command(bytes@, expected) {
            Some(c) => r is Ok && r.unwrap()@ == c,
            None => r == Err::<Command, Error>(Error::Deserialize),
        },
{
    match Envelope::decode(bytes) {
        Ok(envelope) => Command::parse(envelope.payload.as_slice(), expected),
        Err(_) => Err(Error::Deserialize),
    }
}

} // verus!
