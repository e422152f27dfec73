//! Identifiers of catalog items, and strings that may be kept as secrets.

use crate::proto::{RustType, TryFromProtoError};
use crate::text::{
    decimal, decimal_injective, decimal_is_digits, decimal_reads_back, decimal_text, is_digit,
    number_read,
};
use vstd::prelude::*;

verus! {

/// The identifier of an item that is unique within an environment.
#[derive(Clone, Copy, Debug, PartialEq, Eq, Hash)]
pub enum GlobalId {
    /// An item of the system.
    System(u64),
    /// An item that a user created.
    User(u64),
    /// An item that lives only as long as one query or session.
    Transient(u64),
    /// The stand-in for a query that is only explained.
    Explain,
}

impl GlobalId {
    /// The text that shows this identifier.
    pub open spec fn name(self) -> Seq<char> {
        match self {
            GlobalId::System(n) => seq!['s'] + decimal(n as nat),
            GlobalId::User(n) => seq!['u'] + decimal(n as nat),
            GlobalId::Transient(n) => seq!['t'] + decimal(n as nat),
            GlobalId::Explain => "Explained Query"@,
        }
    }

    /// Renders this identifier.
    pub fn to_text(&self) -> (text: String)
        ensures
            text@ == self.name(),
    {
        proof {
            reveal_strlit("s");
            reveal_strlit("u");
            reveal_strlit("t");
            assert("s"@ == seq!['s']);
            assert("u"@ == seq!['u']);
            assert("t"@ == seq!['t']);
        }
        match *self {
            GlobalId::System(n) => "s".to_owned().concat(decimal_text(n).as_str()),
            GlobalId::User(n) => "u".to_owned().concat(decimal_text(n).as_str()),
            GlobalId::Transient(n) => "t".to_owned().concat(decimal_text(n).as_str()),
            GlobalId::Explain => "Explained Query".to_owned(),
        }
    }
}

/// The text of an identifier holds neither of the characters that join it to
/// other text.
pub proof fn name_has_no_separator(id: GlobalId)
    ensures
        !id.name().contains('_'),
        !id.name().contains('-'),
{
    reveal_strlit("Explained Query");
    match id {
        GlobalId::System(n) => decimal_is_digits(n as nat),
        GlobalId::User(n) => decimal_is_digits(n as nat),
        GlobalId::Transient(n) => decimal_is_digits(n as nat),
        GlobalId::Explain => {},
    }
}

/// Different identifiers are shown by different text.
pub proof fn name_injective(a: GlobalId, b: GlobalId)
    requires
        a.name() == b.name(),
    ensures
        a == b,
{
    first_letter(a);
    first_letter(b);
    match (a, b) {
        (GlobalId::System(m), GlobalId::System(n)) => numbered_injective('s', m, n),
        (GlobalId::User(m), GlobalId::User(n)) => numbered_injective('u', m, n),
        (GlobalId::Transient(m), GlobalId::Transient(n)) => numbered_injective('t', m, n),
        _ => {},
    }
}

/// The first letter of the text tells the kinds of identifier apart.
proof fn first_letter(id: GlobalId)
    ensures
        id.name()[0] == match id {
            GlobalId::System(_) => 's',
            GlobalId::User(_) => 'u',
            GlobalId::Transient(_) => 't',
            GlobalId::Explain => 'E',
        },
{
    reveal_strlit("Explained Query");
}

proof fn numbered_injective(letter: char, m: u64, n: u64)
    requires
        seq![letter] + decimal(m as nat) == seq![letter] + decimal(n as nat),
    ensures
        m == n,
{
    assert((seq![letter] + decimal(m as nat)).skip(1) == decimal(m as nat));
    assert((seq![letter] + decimal(n as nat)).skip(1) == decimal(n as nat));
    decimal_injective(m as nat, n as nat);
}

/// The kinds of identifier on the wire.
#[derive(Clone, Copy, Debug, PartialEq, Eq)]
pub enum ProtoGlobalIdKind {
    System(u64),
    User(u64),
    Transient(u64),
    Explain(()),
}

/// A `GlobalId` on the wire.
#[derive(Clone, Copy, Debug, PartialEq, Eq)]
pub struct ProtoGlobalId {
    pub kind: Option<ProtoGlobalIdKind>,
}

impl RustType<ProtoGlobalId> for GlobalId {
    open spec fn encoding(&self) -> ProtoGlobalId {
        ProtoGlobalId {
            kind: Some(
                match self {
                    GlobalId::System(n) => ProtoGlobalIdKind::System(*n),
                    GlobalId::User(n) => ProtoGlobalIdKind::User(*n),
                    GlobalId::Transient(n) => ProtoGlobalIdKind::Transient(*n),
                    GlobalId::Explain => ProtoGlobalIdKind::Explain(()),
                },
            ),
        }
    }

    open spec fn decoding(proto: ProtoGlobalId) -> Result<Self, TryFromProtoError> {
        match proto.kind {
            Some(ProtoGlobalIdKind::System(n)) => Ok(GlobalId::System(n)),
            Some(ProtoGlobalIdKind::User(n)) => Ok(GlobalId::User(n)),
            Some(ProtoGlobalIdKind::Transient(n)) => Ok(GlobalId::Transient(n)),
            Some(ProtoGlobalIdKind::Explain(_)) => Ok(GlobalId::Explain),
            None => Err(TryFromProtoError::MissingField("ProtoGlobalId::kind")),
        }
    }

    open spec fn may_decode(proto: ProtoGlobalId) -> bool {
        true
    }

    fn into_proto(&self) -> (proto: ProtoGlobalId) {
        let kind = match *self {
            GlobalId::System(n) => ProtoGlobalIdKind::System(n),
            GlobalId::User(n) => ProtoGlobalIdKind::User(n),
            GlobalId::Transient(n) => ProtoGlobalIdKind::Transient(n),
            GlobalId::Explain => ProtoGlobalIdKind::Explain(()),
        };
        ProtoGlobalId { kind: Some(kind) }
    }

    fn from_proto(proto: ProtoGlobalId) -> (value: Result<Self, TryFromProtoError>) {
        match proto.kind {
            Some(ProtoGlobalIdKind::System(n)) => Ok(GlobalId::System(n)),
            Some(ProtoGlobalIdKind::User(n)) => Ok(GlobalId::User(n)),
            Some(ProtoGlobalIdKind::Transient(n)) => Ok(GlobalId::Transient(n)),
            Some(ProtoGlobalIdKind::Explain(_)) => Ok(GlobalId::Explain),
            None => Err(TryFromProtoError::MissingField("ProtoGlobalId::kind")),
        }
    }

    proof fn decode_encoding(&self) {
    }

    proof fn encode_decoding(proto: ProtoGlobalId) {
    }
}

/// A string, given as it is or by the secret that holds it.
#[derive(Clone, Debug, PartialEq, Eq, Hash)]
pub enum StringOrSecret {
    String(String),
    Secret(GlobalId),
}

/// The kinds of `StringOrSecret` on the wire.
#[derive(Clone, Debug, PartialEq, Eq)]
pub enum ProtoStringOrSecretKind {
    String(String),
    Secret(ProtoGlobalId),
}

/// A `StringOrSecret` on the wire.
#[derive(Clone, Debug, PartialEq, Eq)]
pub struct ProtoStringOrSecret {
    pub kind: Option<ProtoStringOrSecretKind>,
}

impl RustType<ProtoStringOrSecret> for StringOrSecret {
    open spec fn encoding(&self) -> ProtoStringOrSecret {
        ProtoStringOrSecret {
            kind: Some(
                match self {
                    StringOrSecret::String(s) => ProtoStringOrSecretKind::String(*s),
                    StringOrSecret::Secret(id) => ProtoStringOrSecretKind::Secret(id.encoding()),
                },
            ),
        }
    }

    open spec fn decoding(proto: ProtoStringOrSecret) -> Result<Self, TryFromProtoError> {
        match proto.kind {
            Some(ProtoStringOrSecretKind::String(s)) => Ok(StringOrSecret::String(s)),
            Some(ProtoStringOrSecretKind::Secret(id)) => match GlobalId::decoding(id) {
                Ok(id) => Ok(StringOrSecret::Secret(id)),
                Err(err) => Err(err),
            },
            None => Err(TryFromProtoError::MissingField("ProtoStringOrSecret::kind")),
        }
    }

    open spec fn may_decode(proto: ProtoStringOrSecret) -> bool {
        true
    }

    fn into_proto(&self) -> (proto: ProtoStringOrSecret) {
        let kind = match self {
            StringOrSecret::String(s) => ProtoStringOrSecretKind::String(s.clone()),
            StringOrSecret::Secret(id) => ProtoStringOrSecretKind::Secret(id.into_proto()),
        };
        ProtoStringOrSecret { kind: Some(kind) }
    }

    fn from_proto(proto: ProtoStringOrSecret) -> (value: Result<Self, TryFromProtoError>) {
        match proto.kind {
            Some(ProtoStringOrSecretKind::String(s)) => Ok(StringOrSecret::String(s)),
            Some(ProtoStringOrSecretKind::Secret(id)) => match GlobalId::from_proto(id) {
                Ok(id) => Ok(StringOrSecret::Secret(id)),
                Err(err) => Err(err),
            },
            None => Err(TryFromProtoError::MissingField("ProtoStringOrSecret::kind")),
        }
    }

    proof fn decode_encoding(&self) {
        if let StringOrSecret::Secret(id) = self {
            id.decode_encoding();
        }
    }

    proof fn encode_decoding(proto: ProtoStringOrSecret) {
        if let Some(ProtoStringOrSecretKind::Secret(id)) = proto.kind {
            GlobalId::encode_decoding(id);
        }
    }
}

/// Whether `text` is the letter and then the number, written in digits without a
/// leading zero.
pub open spec fn is_numbered(text: Seq<char>, letter: char, n: u64) -> bool {
    &&& text.len() >= 2
    &&& text[0] == letter
    &&& forall|i: int| 1 <= i < text.len() ==> is_digit(#[trigger] text[i])
    &&& number_read(text.skip(1)) == n
    &&& n > 0 ==> text[1] != '0'
}

/// An identifier is shown as the letter of its kind and its number; only the stand-in
/// for an explained query is shown in words.
pub proof fn name_shows_kind_and_number(id: GlobalId)
    ensures
        match id {
            GlobalId::System(n) => is_numbered(id.name(), 's', n),
            GlobalId::User(n) => is_numbered(id.name(), 'u', n),
            GlobalId::Transient(n) => is_numbered(id.name(), 't', n),
            GlobalId::Explain => id.name() == "Explained Query"@,
        },
{
    match id {
        GlobalId::System(n) => numbered('s', n),
        GlobalId::User(n) => numbered('u', n),
        GlobalId::Transient(n) => numbered('t', n),
        GlobalId::Explain => {},
    }
}

proof fn numbered(letter: char, n: u64)
    ensures
        is_numbered(seq![letter] + decimal(n as nat), letter, n),
{
    let text = seq![letter] + decimal(n as nat);
    decimal_reads_back(n as nat);
    decimal_is_digits(n as nat);
    assert(text.skip(1) == decimal(n as nat));
    assert forall|i: int| 1 <= i < text.len() implies is_digit(#[trigger] text[i]) by {
        assert(text[i] == decimal(n as nat)[i - 1]);
    }
}

/// An identifier and its message are of the same kind and have the same number, both
/// ways; a message without a kind is refused by the name of that field.
pub proof fn id_keeps_kind_and_number(n: u64, proto: ProtoGlobalId)
    ensures
        GlobalId::System(n).encoding().kind == Some(ProtoGlobalIdKind::System(n)),
        GlobalId::User(n).encoding().kind == Some(ProtoGlobalIdKind::User(n)),
        GlobalId::Transient(n).encoding().kind == Some(ProtoGlobalIdKind::Transient(n)),
        GlobalId::Explain.encoding().kind == Some(ProtoGlobalIdKind::Explain(())),
        GlobalId::may_decode(proto),
        match GlobalId::decoding(proto) {
            Ok(GlobalId::System(m)) => proto.kind == Some(ProtoGlobalIdKind::System(m)),
            Ok(GlobalId::User(m)) => proto.kind == Some(ProtoGlobalIdKind::User(m)),
            Ok(GlobalId::Transient(m)) => proto.kind == Some(ProtoGlobalIdKind::Transient(m)),
            Ok(GlobalId::Explain) => proto.kind == Some(ProtoGlobalIdKind::Explain(())),
            Err(err) => proto.kind is None && err == TryFromProtoError::MissingField(
                "ProtoGlobalId::kind",
            ),
        },
{
}

/// A plain string is carried as it is, and a secret by its identifier, both ways; a
/// message without a kind is refused by the name of that field.
pub proof fn string_or_secret_keeps_its_kind(value: StringOrSecret, proto: ProtoStringOrSecret)
    ensures
        match value {
            StringOrSecret::String(s) => value.encoding().kind == Some(
                ProtoStringOrSecretKind::String(s),
            ),
            StringOrSecret::Secret(id) => value.encoding().kind == Some(
                ProtoStringOrSecretKind::Secret(id.encoding()),
            ),
        },
        StringOrSecret::may_decode(proto),
        match proto.kind {
            Some(ProtoStringOrSecretKind::String(s)) => StringOrSecret::decoding(proto) == Ok::<
                StringOrSecret,
                TryFromProtoError,
            >(StringOrSecret::String(s)),
            Some(ProtoStringOrSecretKind::Secret(id)) => match StringOrSecret::decoding(proto) {
                Ok(StringOrSecret::Secret(secret)) => GlobalId::decoding(id) == Ok::<
                    GlobalId,
                    TryFromProtoError,
                >(secret),
                Ok(StringOrSecret::String(_)) => false,
                Err(err) => GlobalId::decoding(id) == Err::<GlobalId, TryFromProtoError>(err),
            },
            None => StringOrSecret::decoding(proto) == Err::<StringOrSecret, TryFromProtoError>(
                TryFromProtoError::MissingField("ProtoStringOrSecret::kind"),
            ),
        },
{
}

} // verus!
