use vstd::prelude::*;

verus! {

/// The type descriptor of a decoded manifest document: the `apiVersion`
/// string (group and version, or a bare version for the core group) and the
/// object kind.
#[derive(Debug)]
pub struct TypeMeta {
    pub api_version: String,
    pub kind: String,
}

/// The decoded, dynamically typed form of one manifest document: the type
/// descriptor (absent for an unknown object), the object identity, and the
/// raw document text, preserved verbatim so that the apply step sends the
/// manifest unchanged.
#[derive(Debug)]
pub struct DynamicObject {
    pub types: Option<TypeMeta>,
    pub name: Option<String>,
    pub namespace: Option<String>,
    pub body: String,
}

/// The manifest document is not well-formed structured data.
#[derive(Debug)]
pub struct DecodeError {}

impl TypeMeta {
    /// An exact copy of this descriptor.
    pub fn duplicate(&self) -> (r: TypeMeta)
        ensures
            r == *self,
    {
        TypeMeta { api_version: self.api_version.clone(), kind: self.kind.clone() }
    }
}

impl DynamicObject {
    /// An exact copy of this object.
    pub fn duplicate(&self) -> (r: DynamicObject)
        ensures
            r == *self,
    {
        DynamicObject {
            types: match &self.types {
                Some(t) => Some(t.duplicate()),
                None => None,
            },
            name: match &self.name {
                Some(n) => Some(n.clone()),
                None => None,
            },
            namespace: match &self.namespace {
                Some(n) => Some(n.clone()),
                None => None,
            },
            body: self.body.clone(),
        }
    }
}

/// What decoding a manifest document yields: `Some` with the decoded object
/// when the text is well-formed, `None` when it is malformed. Decoding is a
/// pure function of the document text alone.
pub uninterp spec fn decoded_of(text: Seq<char>) -> Option<DynamicObject>;

/// Relies on serde_yaml::from_str, deserializing into kube's dynamic object
/// representation: parsing either fails on malformed text or yields the
/// object's type descriptor and identity, as a pure function of the text.
/// The raw text itself is kept as the object's body.
#[verifier::external_body]
pub(crate) fn decode_manifest(text: &str) -> (r: Result<DynamicObject, DecodeError>)
    ensures
        r is Ok <==> decoded_of(text@) is Some,
        r matches Ok(o) ==> decoded_of(text@) == Some(o) && o.body@ == text@,
{
    match serde_yaml::from_str::<kube::core::DynamicObject>(text) {
        Ok(o) => Ok(DynamicObject {
            types: o.types.map(|t| TypeMeta { api_version: t.api_version, kind: t.kind }),
            name: o.metadata.name,
            namespace: o.metadata.namespace,
            body: text.to_string(),
        }),
        Err(_) => Err(DecodeError {}),
    }
}

} // verus!
