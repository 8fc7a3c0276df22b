use vstd::prelude::*;

use crate::tokens::{capability_names, ident_ok, is_identifier, split_capabilities, texts};

verus! {

/// How far the record, and every type derived from it, is visible.
#[derive(Debug, Clone, PartialEq, Eq)]
pub enum Visibility {
    /// Visible everywhere.
    Public,
    /// Visible within the given path only (`crate`, `super`, `in a::b`).
    Restricted(String),
    /// Visible in the defining module only.
    Private,
}

/// One named field of a record, with its declared type as written.
#[derive(Debug, Clone, PartialEq, Eq)]
pub struct Field {
    pub name: String,
    pub ty: String,
}

/// The body of a record definition.
#[derive(Debug, Clone, PartialEq, Eq)]
pub enum Data {
    /// A struct with named fields, in declaration order.
    Struct(Vec<Field>),
    /// A struct without fields.
    Unit,
    /// A struct whose fields have no names: their types, in order.
    Tuple(Vec<String>),
    Enum,
    Union,
}

/// The value given to an attribute.
#[derive(Debug, Clone, PartialEq, Eq)]
pub enum AttrValue {
    /// `#[key]`
    Bare,
    /// `#[key(...)]`
    List,
    /// `#[key = "text"]`, holding the string's value.
    Str(String),
    /// `#[key = 42]` or any literal other than a string.
    OtherLit,
}

/// One attribute attached to the record.
#[derive(Debug, Clone, PartialEq, Eq)]
pub struct Attribute {
    /// The attribute's path, as written (`soa_derive`, `a::b`).
    pub key: String,
    pub value: AttrValue,
    /// The whole attribute as written, without `#[` and `]`.
    pub text: String,
}

/// A record definition as a parser hands it over.
#[derive(Debug, Clone, PartialEq, Eq)]
pub struct DeriveInput {
    pub ident: String,
    pub vis: Visibility,
    pub attrs: Vec<Attribute>,
    pub data: Data,
}

/// Why a record definition cannot be turned into a family of types.
#[derive(Debug, Clone, PartialEq, Eq)]
pub enum InputError {
    /// The body is not a struct with named fields.
    NotAStruct,
    /// An attribute under the marker key is not of the form `key = "..."`
    /// with a comma-separated list of identifiers; holds the attribute as
    /// written.
    MalformedDeclaration(String),
}

/// The record the types are derived from.
#[derive(Debug, Clone, PartialEq, Eq)]
pub struct Input {
    /// The record's name.
    pub name: String,
    /// The traits to derive, in the order written in the `soa_derive` attributes.
    pub derives: Vec<String>,
    /// The record's fields, in declaration order.
    pub fields: Vec<Field>,
    /// The record's visibility, which every derived type takes.
    pub visibility: Visibility,
}

/// The key of the attribute that lists the traits to derive.
pub open spec fn is_marker(k: Seq<char>) -> bool {
    k == "soa_derive"@
}

/// Whether every name in the comma-separated list `v` is an identifier.
pub open spec fn names_ok(v: Seq<char>) -> bool {
    forall|i: int| 0 <= i < capability_names(v).len() ==> ident_ok(#[trigger] capability_names(v)[i])
}

/// An attribute under the marker key that does not hold a string, or holds one
/// with a name that is not an identifier.
pub open spec fn malformed(a: Attribute) -> bool {
    is_marker(a.key@) && match a.value {
        AttrValue::Str(v) => !names_ok(v@),
        _ => true,
    }
}

/// Whether some attribute of `attrs` is malformed.
pub open spec fn has_malformed(attrs: Seq<Attribute>) -> bool {
    exists|i: int| 0 <= i < attrs.len() && malformed(#[trigger] attrs[i])
}

/// The capabilities that the attributes request, in order.
pub open spec fn declared_capabilities(attrs: Seq<Attribute>) -> Seq<Seq<char>>
    decreases attrs.len(),
{
    if attrs.len() == 0 {
        Seq::empty()
    } else {
        let rest = declared_capabilities(attrs.drop_last());
        let a = attrs.last();
        match a.value {
            AttrValue::Str(v) => if is_marker(a.key@) {
                rest + capability_names(v@)
            } else {
                rest
            },
            _ => rest,
        }
    }
}

/// The fields of a body that has the shape of a struct with named fields.
pub open spec fn struct_fields(d: Data) -> Option<Seq<Field>> {
    match d {
        Data::Struct(f) => Some(f@),
        Data::Unit => Some(Seq::empty()),
        _ => None,
    }
}

/// The text of each name in an annotation.
pub open spec fn annotation_texts(a: Option<Vec<String>>) -> Option<Seq<Seq<char>>> {
    match a {
        Some(v) => Some(texts(v@)),
        None => None,
    }
}

/// A capability that borrowing and raw views do not take: duplication and
/// either direction of serialization.
pub open spec fn is_excepted(c: Seq<char>) -> bool {
    c == "Clone"@ || c == "Deserialize"@ || c == "Serialize"@
}

/// The capabilities that borrowing and raw views take, in order.
pub open spec fn without_exceptions(caps: Seq<Seq<char>>) -> Seq<Seq<char>> {
    caps.filter(|c: Seq<char>| !is_excepted(c))
}

/// Nothing for no capabilities, else one annotation with all of them.
pub open spec fn full_annotation(caps: Seq<Seq<char>>) -> Option<Seq<Seq<char>>> {
    if caps.len() == 0 {
        None
    } else {
        Some(caps)
    }
}

/// Nothing for no capabilities, else one annotation with those that borrowing
/// and raw views take.
pub open spec fn filtered_annotation(caps: Seq<Seq<char>>) -> Option<Seq<Seq<char>>> {
    if caps.len() == 0 {
        None
    } else {
        Some(without_exceptions(caps))
    }
}

/// Tells whether `s` names a capability that borrowing and raw views do not take.
pub fn is_excepted_capability(s: &String) -> (r: bool)
    ensures
        r == is_excepted(s@),
{
    let clone = String::from_str("Clone");
    let de = String::from_str("Deserialize");
    let ser = String::from_str("Serialize");
    *s == clone || *s == de || *s == ser
}

impl InputError {
    /// The diagnostic for this error.
    pub fn message(&self) -> (r: String)
        ensures
            match self {
                InputError::NotAStruct => r@ == "#[derive(StructOfArray)] only supports structs."@,
                InputError::MalformedDeclaration(t) => r@ == "expected #[soa_derive = \"Traits, To, Derive\"], got #["@
                    + t@ + "]"@,
            },
    {
        match self {
            InputError::NotAStruct => String::from_str("#[derive(StructOfArray)] only supports structs."),
            InputError::MalformedDeclaration(t) => {
                let mut m = String::from_str("expected #[soa_derive = \"Traits, To, Derive\"], got #[");
                m.append(t.as_str());
                m.append("]");
                m
            },
        }
    }
}

impl Input {
    /// Reads a record definition: its name, visibility and fields as they
    /// stand, and the traits listed in its `soa_derive = "..."` attributes.
    pub fn new(input: DeriveInput) -> (r: Result<Input, InputError>)
        ensures
            struct_fields(input.data) is None ==> r == Err::<Input, InputError>(
                InputError::NotAStruct,
            ),
            struct_fields(input.data) is Some && has_malformed(input.attrs@) ==> {
                &&& r is Err
                &&& r->Err_0 is MalformedDeclaration
                &&& exists|i: int|
                    0 <= i < input.attrs@.len() && malformed(#[trigger] input.attrs@[i]) && (
                    forall|j: int| 0 <= j < i ==> !malformed(#[trigger] input.attrs@[j]))
                        && r->Err_0->MalformedDeclaration_0@ == input.attrs@[i].text@
            },
            struct_fields(input.data) is Some && !has_malformed(input.attrs@) ==> {
                &&& r is Ok
                &&& r->Ok_0.name == input.ident
                &&& r->Ok_0.visibility == input.vis
                &&& r->Ok_0.fields@ == struct_fields(input.data)->Some_0
                &&& texts(r->Ok_0.derives@) == declared_capabilities(input.attrs@)
                &&& forall|k: int|
                    0 <= k < r->Ok_0.derives@.len() ==> ident_ok(#[trigger] r->Ok_0.derives@[k]@)
            },
    {
        let DeriveInput { ident, vis, attrs, data } = input;
        let fields = match data {
            Data::Struct(f) => f,
            Data::Unit => Vec::new(),
            _ => {
                return Err(InputError::NotAStruct);
            },
        };
        let marker = String::from_str("soa_derive");
        let mut derives: Vec<String> = Vec::new();
        let mut i: usize = 0;
        proof {
            assert(attrs@.subrange(0, 0) =~= Seq::<Attribute>::empty());
        }
        while i < attrs.len()
            invariant
                marker@ == "soa_derive"@,
                attrs@ == input.attrs@,
                struct_fields(input.data) is Some,
                i <= attrs@.len(),
                texts(derives@) == declared_capabilities(attrs@.subrange(0, i as int)),
                forall|j: int| 0 <= j < i ==> !malformed(#[trigger] attrs@[j]),
                forall|k: int| 0 <= k < derives@.len() ==> ident_ok(#[trigger] derives@[k]@),
            decreases attrs@.len() - i,
        {
            let a = &attrs[i];
            let ghost prefix = attrs@.subrange(0, i as int);
            proof {
                assert(attrs@.subrange(0, i + 1).drop_last() =~= prefix);
            }
            if a.key == marker {
                match &a.value {
                    AttrValue::Str(v) => {
                        let mut names = split_capabilities(v.as_str());
                        let mut j: usize = 0;
                        while j < names.len()
                            invariant
                                attrs@ == input.attrs@,
                                struct_fields(input.data) is Some,
                                i < attrs@.len(),
                                forall|k: int| 0 <= k < i ==> !malformed(#[trigger] attrs@[k]),
                                *a == attrs@[i as int],
                                is_marker(a.key@),
                                a.value == AttrValue::Str(*v),
                                texts(names@) == capability_names(v@),
                                j <= names@.len(),
                                forall|k: int| 0 <= k < j ==> ident_ok(#[trigger] names@[k]@),
                            decreases names@.len() - j,
                        {
                            if !is_identifier(&names[j]) {
                                proof {
                                    assert(texts(names@)[j as int] == names@[j as int]@);
                                    assert(capability_names(v@)[j as int] == names@[j as int]@);
                                    assert(malformed(attrs@[i as int]));
                                }
                                return Err(InputError::MalformedDeclaration(a.text.clone()));
                            }
                            j += 1;
                        }
                        let ghost before = derives@;
                        let ghost added = names@;
                        proof {
                            assert forall|k: int| 0 <= k < capability_names(v@).len() implies ident_ok(
                                #[trigger] capability_names(v@)[k],
                            ) by {
                                assert(texts(added)[k] == added[k]@);
                            }
                        }
                        derives.append(&mut names);
                        proof {
                            assert(texts(derives@) =~= texts(before) + texts(added));
                            assert forall|k: int| 0 <= k < derives@.len() implies ident_ok(
                                #[trigger] derives@[k]@,
                            ) by {
                                if k >= before.len() {
                                    assert(derives@[k] == added[k - before.len()]);
                                }
                            }
                        }
                    },
                    _ => {
                        proof {
                            assert(malformed(attrs@[i as int]));
                        }
                        return Err(InputError::MalformedDeclaration(a.text.clone()));
                    },
                }
            }
            i += 1;
        }
        proof {
            assert(attrs@.subrange(0, attrs@.len() as int) =~= attrs@);
        }
        Ok(Input { name: ident, derives, fields, visibility: vis })
    }

    /// The traits for the owning vector and the element references: nothing
    /// when none were requested, else all of them in order.
    pub fn derive(&self) -> (r: Option<Vec<String>>)
        ensures
            annotation_texts(r) == full_annotation(texts(self.derives@)),
    {
        if self.derives.len() == 0 {
            return None;
        }
        let mut out: Vec<String> = Vec::new();
        let mut i: usize = 0;
        while i < self.derives.len()
            invariant
                i <= self.derives@.len(),
                texts(out@) == texts(self.derives@.subrange(0, i as int)),
            decreases self.derives@.len() - i,
        {
            let ghost before = out@;
            out.push(self.derives[i].clone());
            proof {
                assert(texts(out@) =~= texts(before).push(self.derives@[i as int]@));
                assert(texts(self.derives@.subrange(0, i + 1)) =~= texts(
                    self.derives@.subrange(0, i as int),
                ).push(self.derives@[i as int]@));
            }
            i += 1;
        }
        proof {
            assert(self.derives@.subrange(0, self.derives@.len() as int) =~= self.derives@);
        }
        Some(out)
    }

    /// The traits for the slices and pointers: nothing when none were
    /// requested, else those other than `Clone`, `Deserialize` and
    /// `Serialize`, in order.
    pub fn derive_with_exceptions(&self) -> (r: Option<Vec<String>>)
        ensures
            annotation_texts(r) == filtered_annotation(texts(self.derives@)),
    {
        if self.derives.len() == 0 {
            return None;
        }
        let mut out: Vec<String> = Vec::new();
        let mut i: usize = 0;
        while i < self.derives.len()
            invariant
                i <= self.derives@.len(),
                texts(out@) == without_exceptions(texts(self.derives@.subrange(0, i as int))),
            decreases self.derives@.len() - i,
        {
            let d = &self.derives[i];
            let ghost before = out@;
            let ghost prefix = texts(self.derives@.subrange(0, i as int));
            let ghost next = texts(self.derives@.subrange(0, i + 1));
            proof {
                assert(next =~= prefix.push(d@));
                assert(next.drop_last() =~= prefix);
                assert(next.last() == d@);
                reveal(Seq::filter);
                assert(without_exceptions(next) == if is_excepted(d@) {
                    without_exceptions(prefix)
                } else {
                    without_exceptions(prefix).push(d@)
                });
            }
            if !is_excepted_capability(d) {
                out.push(d.clone());
                proof {
                    assert(texts(out@) =~= texts(before).push(d@));
                }
            }
            i += 1;
        }
        proof {
            assert(self.derives@.subrange(0, self.derives@.len() as int) =~= self.derives@);
        }
        Some(out)
    }

    /// The name of the owning vector: the record's name followed by `Vec`.
    pub fn vec_name(&self) -> (r: String)
        ensures
            r@ == self.name@ + "Vec"@,
    {
        self.name.clone().concat("Vec")
    }

    /// The name of the shared slice: the record's name followed by `Slice`.
    pub fn slice_name(&self) -> (r: String)
        ensures
            r@ == self.name@ + "Slice"@,
    {
        self.name.clone().concat("Slice")
    }

    /// The name of the mutable slice: the record's name followed by `SliceMut`.
    pub fn slice_mut_name(&self) -> (r: String)
        ensures
            r@ == self.name@ + "SliceMut"@,
    {
        self.name.clone().concat("SliceMut")
    }

    /// The name of the shared element reference: the record's name followed by `Ref`.
    pub fn ref_name(&self) -> (r: String)
        ensures
            r@ == self.name@ + "Ref"@,
    {
        self.name.clone().concat("Ref")
    }

    /// The name of the mutable element reference: the record's name followed
    /// by `RefMut`.
    pub fn ref_mut_name(&self) -> (r: String)
        ensures
            r@ == self.name@ + "RefMut"@,
    {
        self.name.clone().concat("RefMut")
    }

    /// The name of the shared element pointer: the record's name followed by `Ptr`.
    pub fn ptr_name(&self) -> (r: String)
        ensures
            r@ == self.name@ + "Ptr"@,
    {
        self.name.clone().concat("Ptr")
    }

    /// The name of the mutable element pointer: the record's name followed by
    /// `PtrMut`.
    pub fn ptr_mut_name(&self) -> (r: String)
        ensures
            r@ == self.name@ + "PtrMut"@,
    {
        self.name.clone().concat("PtrMut")
    }
}

} // verus!
