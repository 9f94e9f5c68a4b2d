use vstd::prelude::*;

use vstd::string::StringExecFns;

use super::predicates::constant_pred::{constant_type_name, ConstantType};

pub mod attr_ref;
pub mod schema;

verus! {

/// An attribute of a schema: its name, its type, and whether it may be null.
#[derive(Debug)]
pub struct Attribute {
    pub name: String,
    pub typ: ConstantType,
    pub nullable: bool,
}

/// The model of an [`Attribute`]: its name, its type, and whether it may be null.
pub type AttributeView = (Seq<char>, ConstantType, bool);

impl View for Attribute {
    type V = AttributeView;

    open spec fn view(&self) -> AttributeView {
        (self.name@, self.typ, self.nullable)
    }
}

/// The models of the attributes, in order.
pub open spec fn attribute_views(attributes: Seq<Attribute>) -> Seq<AttributeView> {
    attributes.map_values(|a: Attribute| a@)
}

impl Clone for Attribute {
    fn clone(&self) -> (res: Self)
        ensures
            res == *self,
    {
        Attribute { name: self.name.clone(), typ: self.typ, nullable: self.nullable }
    }
}

impl Attribute {
    pub fn new(name: String, typ: ConstantType, nullable: bool) -> (res: Self)
        ensures
            res == (Attribute { name, typ, nullable }),
    {
        Self { name, typ, nullable }
    }

    /// A 64-bit integer attribute that is never null.
    pub fn new_non_null_int64(name: String) -> (res: Self)
        ensures
            res == (Attribute { name, typ: ConstantType::Int64, nullable: false }),
    {
        Self { name, typ: ConstantType::Int64, nullable: false }
    }
}

/// The attribute as `name:Type`, followed by `(non-null)` where it is never null.
pub open spec fn attribute_text(a: Attribute) -> Seq<char> {
    a.name@ + ":"@ + constant_type_name(a.typ) + if a.nullable {
        Seq::<char>::empty()
    } else {
        "(non-null)"@
    }
}

impl Attribute {
    /// The attribute as text; see [`attribute_text`].
    pub fn to_string(&self) -> (res: String)
        ensures
            res@ == attribute_text(*self),
    {
        let text = self.name.clone().concat(":").concat(self.typ.debug_name().as_str());
        if self.nullable {
            assert(text@ + Seq::<char>::empty() =~= text@);
            text
        } else {
            text.concat("(non-null)")
        }
    }
}

} // verus!
