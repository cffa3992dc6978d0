//! Instances of the federation: this one, or another one known by its
//! domain and its key.

use crate::codec::base64url_text;
use crate::keys::{KeyFormatError, PublicKey};
use vstd::prelude::*;
use vstd::string::*;

verus! {

/// `AllowedAscii` of ascii_domain: a set of the bytes that may stand in the
/// labels of a domain. It is carried from the call that makes it to the
/// call that takes it; what it holds is named `allowed_bytes`.
#[verifier::external_type_specification]
#[verifier::external_body]
#[verifier::reject_recursive_types(T)]
pub struct ExAllowedAscii<T>(ascii_domain::char_set::AllowedAscii<T>);

/// The bytes that a character set of ascii_domain allows in a label.
pub uninterp spec fn allowed_bytes(set: ascii_domain::char_set::AllowedAscii<Vec<u8>>) -> Set<u8>;

/// What ascii_domain takes for a character set: at most 127 bytes, each of
/// them ASCII and none a dot, none twice.
pub open spec fn is_label_alphabet(bytes: Seq<u8>) -> bool {
    &&& bytes.len() <= 127
    &&& forall|i: int| 0 <= i < bytes.len() ==> #[trigger] bytes[i] <= 127 && bytes[i] != 46
    &&& forall|i: int, j: int| 0 <= i < j < bytes.len() ==> bytes[i] != bytes[j]
}

/// A character that may stand in a label.
pub open spec fn is_label_char(c: char, allowed: Set<u8>) -> bool {
    (c as int) < 128 && allowed.contains(c as u8)
}

/// The part of a domain text that counts: all of it but one closing dot.
pub open spec fn domain_body(text: Seq<char>) -> Seq<char> {
    if text.len() > 0 && text.last() == '.' {
        text.drop_last()
    } else {
        text
    }
}

/// A dot stands among the 64 characters of `body` that begin at `i`.
pub open spec fn label_ends_within(body: Seq<char>, i: int) -> bool {
    exists|j: int| i <= j < i + 64 && j < body.len() && body[j] == '.'
}

/// What ascii_domain takes for a domain over the label characters
/// `allowed`: labels of 1 to 63 allowed characters, parted by dots, 253
/// characters at most, and one closing dot that does not count.
pub open spec fn is_domain(text: Seq<char>, allowed: Set<u8>) -> bool {
    let body = domain_body(text);
    &&& 0 < body.len() <= 253
    &&& body[0] != '.'
    &&& body.last() != '.'
    &&& forall|i: int|
        0 <= i < body.len() ==> #[trigger] body[i] == '.' || is_label_char(body[i], allowed)
    &&& forall|i: int| 0 < i < body.len() && #[trigger] body[i] == '.' ==> body[i - 1] != '.'
    &&& forall|i: int| 0 <= i && i + 64 <= body.len() ==> #[trigger] label_ends_within(body, i)
}

/// `AllowedAscii::try_from_unique_ascii` of ascii_domain: the set holds the
/// bytes it was given, and is refused unless they are at most 127 distinct
/// ASCII bytes without the dot.
#[verifier::external_body]
pub(crate) fn label_alphabet(bytes: Vec<u8>) -> (r: Option<
    ascii_domain::char_set::AllowedAscii<Vec<u8>>,
>)
    ensures
        r is Some <==> is_label_alphabet(bytes@),
        r is Some ==> allowed_bytes(r->0) == bytes@.to_set(),
{
    ascii_domain::char_set::AllowedAscii::try_from_unique_ascii(bytes).ok()
}

/// `Domain::try_from_bytes` of ascii_domain: whether the text is a domain
/// over the given label characters.
#[verifier::external_body]
pub(crate) fn domain_accepted(
    text: &str,
    allowed: &ascii_domain::char_set::AllowedAscii<Vec<u8>>,
) -> (r: bool)
    ensures
        r == is_domain(text@, allowed_bytes(*allowed)),
{
    ascii_domain::dom::Domain::try_from_bytes(text, allowed).is_ok()
}

/// The byte at place `i` of the table of label characters: the hyphen, the
/// digits, the lower-case letters, the colon.
pub open spec fn label_table_byte(i: int) -> u8 {
    if i == 0 {
        45
    } else if i <= 10 {
        (47 + i) as u8
    } else if i <= 36 {
        (86 + i) as u8
    } else {
        58
    }
}

/// The table of label characters.
pub open spec fn label_table() -> Seq<u8> {
    Seq::new(38, |i: int| label_table_byte(i))
}

/// The label characters of an instance's domain.
pub open spec fn domain_alphabet() -> Set<u8> {
    label_table().to_set()
}

/// The table of label characters is one that ascii_domain takes.
pub proof fn lemma_label_table()
    ensures
        is_label_alphabet(label_table()),
        forall|b: u8|
            domain_alphabet().contains(b) <==> (b == 45 || (48 <= b <= 58) || (97 <= b <= 122)),
{
    let t = label_table();
    assert forall|b: u8| (b == 45 || (48 <= b <= 58) || (97 <= b <= 122)) implies t.to_set().contains(
        b,
    ) by {
        let i: int = if b == 45 {
            0
        } else if b <= 57 {
            b - 47
        } else if b == 58 {
            37
        } else {
            b - 86
        };
        assert(t[i] == b);
    }
}

fn label_table_bytes() -> (r: Vec<u8>)
    ensures
        r@ == label_table(),
{
    let mut table: Vec<u8> = Vec::new();
    let mut i: u8 = 0;
    while i < 38
        invariant
            i <= 38,
            table@.len() == i,
            forall|j: int| 0 <= j < i ==> table@[j] == label_table_byte(j),
        decreases 38 - i,
    {
        let b: u8 = if i == 0 {
            45
        } else if i <= 10 {
            47 + i
        } else if i <= 36 {
            86 + i
        } else {
            58
        };
        table.push(b);
        i += 1;
    }
    assert(table@ =~= label_table());
    table
}

/// A text that is no domain.
#[derive(Clone, Copy, PartialEq, Eq, Structural, Debug)]
pub struct DomainError {}

/// The domain of another instance.
#[derive(Debug, PartialEq, Eq)]
pub struct ExternalDomain {
    pub name: String,
}

impl Clone for ExternalDomain {
    fn clone(&self) -> (r: Self)
        ensures
            r == *self,
    {
        ExternalDomain { name: self.name.clone() }
    }
}

impl View for ExternalDomain {
    type V = Seq<char>;

    /// The domain as it is compared and shown: without the closing dot.
    open spec fn view(&self) -> Seq<char> {
        domain_body(self.name@)
    }
}

impl ExternalDomain {
    /// The name is a domain over the label characters.
    pub open spec fn wf(&self) -> bool {
        is_domain(self.name@, domain_alphabet())
    }

    /// Takes a text for a domain where it is one.
    pub fn convert(value: String) -> (r: Result<ExternalDomain, DomainError>)
        ensures
            r is Ok <==> is_domain(value@, domain_alphabet()),
            r is Ok ==> r->Ok_0 == (ExternalDomain { name: value }),
    {
        proof {
            lemma_label_table();
        }
        match label_alphabet(label_table_bytes()) {
            Some(allowed) => {
                if domain_accepted(value.as_str(), &allowed) {
                    Ok(ExternalDomain { name: value })
                } else {
                    Err(DomainError {  })
                }
            },
            None => Err(DomainError {  }),
        }
    }

    /// The name as it was given.
    pub fn inner(&self) -> (r: &String)
        ensures
            *r == self.name,
    {
        &self.name
    }

    /// The name as it was given.
    pub fn into_inner(self) -> (r: String)
        ensures
            r == self.name,
    {
        self.name
    }

    /// The name without its closing dot.
    pub fn text(&self) -> (r: String)
        ensures
            r@ == self@,
    {
        let s = self.name.as_str();
        let n = s.unicode_len();
        if n > 0 && s.get_char(n - 1) == '.' {
            let r = String::from_str(s.substring_char(0, n - 1));
            assert(r@ =~= self@);
            r
        } else {
            self.name.clone()
        }
    }

    /// Whether two domains are the same domain.
    pub fn same(&self, other: &ExternalDomain) -> (r: bool)
        ensures
            r == (self@ == other@),
    {
        self.text() == other.text()
    }
}

/// Where a plot lives: on this instance or on another.
#[derive(Debug, PartialEq, Eq)]
pub enum InstanceDomain {
    External(ExternalDomain),
    Current,
}

impl Clone for InstanceDomain {
    fn clone(&self) -> (r: Self)
        ensures
            r == *self,
    {
        match self {
            InstanceDomain::External(ext) => InstanceDomain::External(ext.clone()),
            InstanceDomain::Current => InstanceDomain::Current,
        }
    }
}

impl InstanceDomain {
    /// The value is well formed.
    pub open spec fn wf(&self) -> bool {
        match self {
            InstanceDomain::External(ext) => ext.wf(),
            InstanceDomain::Current => true,
        }
    }

    /// Two domains name the same place.
    pub open spec fn matches(&self, other: &InstanceDomain) -> bool {
        match (self, other) {
            (InstanceDomain::External(a), InstanceDomain::External(b)) => a@ == b@,
            (InstanceDomain::Current, InstanceDomain::Current) => true,
            _ => false,
        }
    }

    /// The domain of a stored instance: none stored means this instance.
    pub fn from_option(domain: Option<String>) -> (r: Result<InstanceDomain, DomainError>)
        ensures
            match domain {
                None => r == Ok::<InstanceDomain, DomainError>(InstanceDomain::Current),
                Some(text) => (r is Ok <==> is_domain(text@, domain_alphabet())) && (r is Ok
                    ==> r->Ok_0 == InstanceDomain::External(ExternalDomain { name: text })),
            },
            r is Ok ==> r->Ok_0.wf(),
    {
        match domain {
            Some(text) => match ExternalDomain::convert(text) {
                Ok(ext) => Ok(InstanceDomain::External(ext)),
                Err(e) => Err(e),
            },
            None => Ok(InstanceDomain::Current),
        }
    }

    /// Whether the two are the same.
    pub fn same(&self, other: &InstanceDomain) -> (r: bool)
        ensures
            r == self.matches(other),
    {
        match self {
            InstanceDomain::External(a) => match other {
                InstanceDomain::External(b) => a.same(b),
                InstanceDomain::Current => false,
            },
            InstanceDomain::Current => match other {
                InstanceDomain::External(_) => false,
                InstanceDomain::Current => true,
            },
        }
    }
}

/// Why a stored or claimed instance is refused.
#[derive(Clone, Copy, PartialEq, Eq, Structural, Debug)]
pub enum InstanceError {
    Key(KeyFormatError),
    Domain,
}

/// An instance: its key and where it is.
#[derive(Debug, PartialEq, Eq)]
pub struct Instance {
    pub key: PublicKey,
    pub domain: InstanceDomain,
}

impl Clone for Instance {
    fn clone(&self) -> (r: Self)
        ensures
            r == *self,
    {
        Instance { key: self.key, domain: self.domain.clone() }
    }
}

impl Instance {
    /// The value is well formed.
    pub open spec fn wf(&self) -> bool {
        self.key.wf() && self.domain.wf()
    }

    /// Two instances are the same one: the same key at the same place.
    pub open spec fn matches(&self, other: &Instance) -> bool {
        self.key@ == other.key@ && self.domain.matches(&other.domain)
    }

    /// What `from_row` makes of a stored key and domain.
    pub open spec fn of_row(public_key: Vec<u8>, domain: Option<String>) -> Result<
        Instance,
        InstanceError,
    > {
        if public_key@.len() != 32 {
            Err(InstanceError::Key(KeyFormatError::Length))
        } else if !crate::keys::ed25519_point(public_key@) {
            Err(InstanceError::Key(KeyFormatError::Point))
        } else {
            match domain {
                None => Ok(
                    Instance {
                        key: PublicKey::of_bytes(public_key@),
                        domain: InstanceDomain::Current,
                    },
                ),
                Some(text) => if is_domain(text@, domain_alphabet()) {
                    Ok(
                        Instance {
                            key: PublicKey::of_bytes(public_key@),
                            domain: InstanceDomain::External(ExternalDomain { name: text }),
                        },
                    )
                } else {
                    Err(InstanceError::Domain)
                },
            }
        }
    }

    /// The text form of an instance: its domain, a semicolon, its key.
    pub open spec fn encoding(&self, this_instance: Seq<char>) -> Seq<char> {
        let place = match self.domain {
            InstanceDomain::External(ext) => ext@,
            InstanceDomain::Current => this_instance,
        };
        place + seq![';'] + base64url_text(self.key@)
    }

    /// The instance with this key at this place.
    pub fn new(key: PublicKey, domain: InstanceDomain) -> (r: Self)
        ensures
            r == (Instance { key, domain }),
    {
        Instance { key, domain }
    }

    /// The instance that a stored key and domain describe.
    pub fn from_row(public_key: Vec<u8>, domain: Option<String>) -> (r: Result<
        Instance,
        InstanceError,
    >)
        ensures
            r == Instance::of_row(public_key, domain),
            r is Ok ==> r->Ok_0.wf() && r->Ok_0.key@ == public_key@,
    {
        let key = match crate::keys::to_array32(public_key.as_slice()) {
            None => {
                return Err(InstanceError::Key(KeyFormatError::Length));
            },
            Some(a) => {
                if !crate::keys::point_decodes(&a) {
                    return Err(InstanceError::Key(KeyFormatError::Point));
                }
                PublicKey { bytes: a }
            },
        };
        match InstanceDomain::from_option(domain) {
            Ok(domain) => Ok(Instance::new(key, domain)),
            Err(_) => Err(InstanceError::Domain),
        }
    }

    /// Writes the instance as text; `this_instance` is the name to show for
    /// the current instance.
    pub fn encode(&self, this_instance: &str) -> (r: String)
        ensures
            r@ == self.encoding(this_instance@),
    {
        let mut out = match &self.domain {
            InstanceDomain::External(ext) => ext.text(),
            InstanceDomain::Current => String::from_str(this_instance),
        };
        proof {
            reveal_strlit(";");
        }
        out.append(";");
        let key = self.key.encode();
        out.append(key.as_str());
        assert(out@ =~= self.encoding(this_instance@));
        out
    }

    /// Whether the two are the same.
    pub fn same(&self, other: &Instance) -> (r: bool)
        ensures
            r == self.matches(other),
    {
        self.key.same(&other.key) && self.domain.same(&other.domain)
    }
}

/// An instance as a peer claims it: key and domain as text.
#[derive(Debug, PartialEq, Eq)]
pub struct SendInstance {
    /// The key, in base64.
    pub key: String,
    pub domain: String,
}

impl Clone for SendInstance {
    fn clone(&self) -> (r: Self)
        ensures
            r == *self,
    {
        SendInstance { key: self.key.clone(), domain: self.domain.clone() }
    }
}

impl SendInstance {
    /// What `parse` makes of the claim.
    pub open spec fn parsing(&self) -> Result<Instance, InstanceError> {
        match PublicKey::decoding(self.key@) {
            Err(e) => Err(InstanceError::Key(e)),
            Ok(key) => if is_domain(self.domain@, domain_alphabet()) {
                Ok(
                    Instance {
                        key,
                        domain: InstanceDomain::External(ExternalDomain { name: self.domain }),
                    },
                )
            } else {
                Err(InstanceError::Domain)
            },
        }
    }

    /// Reads the claim: the key must be one, the domain must be one. The
    /// instance read is always an external one.
    pub fn parse(&self) -> (r: Result<Instance, InstanceError>)
        ensures
            r == self.parsing(),
            r is Ok ==> r->Ok_0.wf() && r->Ok_0.domain is External,
    {
        let key = match PublicKey::decode(self.key.as_str()) {
            Ok(key) => key,
            Err(e) => {
                return Err(InstanceError::Key(e));
            },
        };
        match ExternalDomain::convert(self.domain.clone()) {
            Ok(ext) => Ok(Instance { key, domain: InstanceDomain::External(ext) }),
            Err(_) => Err(InstanceError::Domain),
        }
    }
}

} // verus!
