use vstd::prelude::*;

verus! {

/// A closed enumeration with a text form on the wire. Each variant has one
/// canonical name and may be recognized under further names (historical
/// aliases).
pub trait WireEnum: Sized {
    /// The variant that the text `s` names, if any.
    spec fn spec_decode(s: Seq<char>) -> Option<Self>;

    /// The canonical name of the variant.
    spec fn spec_name(&self) -> Seq<char>;

    /// The canonical name of every variant is recognized as that variant.
    proof fn lemma_name_decodes(k: Self)
        ensures
            Self::spec_decode(k.spec_name()) == Some(k),
    ;

    /// Recognizes the variant that `s` names.
    fn decode(s: &str) -> (r: Option<Self>)
        ensures
            r == Self::spec_decode(s@),
    ;

    /// The canonical name of the variant.
    fn name(&self) -> (r: &'static str)
        ensures
            r@ == self.spec_name(),
    ;
}

/// A field whose set of values the server may extend: either a variant that
/// this library recognizes, or the raw value that it does not.
#[derive(Debug, Clone, PartialEq, Eq)]
pub enum KnownOrUnknown<K, U> {
    /// A recognized value.
    Known(K),
    /// A value that is not recognized, kept as it came.
    Unknown(U),
}

impl<K: WireEnum> KnownOrUnknown<K, String> {
    /// The text that stands for this value on the wire.
    pub open spec fn wire_text(&self) -> Seq<char> {
        match self {
            KnownOrUnknown::Known(k) => k.spec_name(),
            KnownOrUnknown::Unknown(u) => u@,
        }
    }

    /// Reading the text `s` gives `v`: the variant it names, or else the
    /// text itself, unchanged, as an unknown value.
    pub open spec fn decodes_to(s: Seq<char>, v: Self) -> bool {
        match K::spec_decode(s) {
            Some(k) => v == KnownOrUnknown::<K, String>::Known(k),
            None => v is Unknown && v->Unknown_0@ == s,
        }
    }

    /// The two values are the same variant holding the same value, an
    /// unknown text compared by its characters.
    pub open spec fn same_value(&self, other: &Self) -> bool {
        match (self, other) {
            (KnownOrUnknown::Known(a), KnownOrUnknown::Known(b)) => a == b,
            (KnownOrUnknown::Unknown(a), KnownOrUnknown::Unknown(b)) => a@ == b@,
            _ => false,
        }
    }

    /// A value that reading can give: an unknown value holds a text that no
    /// variant is recognized by.
    pub open spec fn wf(&self) -> bool {
        match self {
            KnownOrUnknown::Known(_) => true,
            KnownOrUnknown::Unknown(u) => K::spec_decode(u@) is None,
        }
    }

    /// Reads a wire value. Reading never fails: a text that names no variant
    /// becomes an unknown value.
    pub fn from_wire(s: &str) -> (r: Self)
        ensures
            Self::decodes_to(s@, r),
            r.wf(),
    {
        match K::decode(s) {
            Some(k) => KnownOrUnknown::Known(k),
            None => KnownOrUnknown::Unknown(s.to_owned()),
        }
    }

    /// The wire text of the value.
    pub fn to_wire(&self) -> (r: String)
        ensures
            r@ == self.wire_text(),
    {
        match self {
            KnownOrUnknown::Known(k) => k.name().to_owned(),
            KnownOrUnknown::Unknown(u) => u.clone(),
        }
    }
}

/// Open-enumeration round trip: reading back the wire text of any value that
/// reading can give yields that same value.
pub proof fn lemma_open_enum_round_trip<K: WireEnum>(v: KnownOrUnknown<K, String>)
    requires
        v.wf(),
    ensures
        KnownOrUnknown::<K, String>::decodes_to(v.wire_text(), v),
{
    if let KnownOrUnknown::Known(k) = v {
        K::lemma_name_decodes(k);
    }
}

/// Open-enumeration fallback: a text that names no variant reads as an
/// unknown value holding that very text, and is never refused.
pub proof fn lemma_open_enum_fallback<K: WireEnum>(s: Seq<char>, v: KnownOrUnknown<K, String>)
    requires
        K::spec_decode(s) is None,
        KnownOrUnknown::<K, String>::decodes_to(s, v),
    ensures
        v is Unknown,
        v->Unknown_0@ == s,
{
}

} // verus!
