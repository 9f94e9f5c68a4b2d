use vstd::prelude::*;

use vstd::string::StringExecFns;

use super::{attribute_text, Attribute};

verus! {

/// [`Schema`] represents the schema of a group in the memo. It contains a list of attributes.
#[derive(Debug)]
pub struct Schema {
    pub attributes: Vec<Attribute>,
}

impl Clone for Schema {
    fn clone(&self) -> (res: Self)
        ensures
            res.attributes@ == self.attributes@,
    {
        let attributes = self.attributes.clone();
        assert(attributes@ =~= self.attributes@);
        Schema { attributes }
    }
}

impl Schema {
    pub fn new(attributes: Vec<Attribute>) -> (res: Self)
        ensures
            res.attributes == attributes,
    {
        Self { attributes }
    }

    /// The number of attributes.
    pub fn len(&self) -> (res: usize)
        ensures
            res == self.attributes.len(),
    {
        self.attributes.len()
    }

    /// Whether the schema has no attribute.
    pub fn is_empty(&self) -> (res: bool)
        ensures
            res == (self.attributes.len() == 0),
    {
        self.len() == 0
    }
}

/// The texts `ts` with `sep` between each two of them.
pub open spec fn join_texts(ts: Seq<Seq<char>>, sep: Seq<char>) -> Seq<char>
    decreases ts.len(),
{
    if ts.len() == 0 {
        Seq::empty()
    } else if ts.len() == 1 {
        ts[0]
    } else {
        join_texts(ts.drop_last(), sep) + sep + ts.last()
    }
}

/// The attributes as text, separated by commas, in square brackets.
pub open spec fn schema_text(attributes: Seq<Attribute>) -> Seq<char> {
    "["@ + join_texts(attributes.map_values(|a: Attribute| attribute_text(a)), ", "@) + "]"@
}

impl Schema {
    /// The schema as text; see [`schema_text`].
    pub fn to_string(&self) -> (res: String)
        ensures
            res@ == schema_text(self.attributes@),
    {
        let ghost texts = self.attributes@.map_values(|a: Attribute| attribute_text(a));
        let mut inner = String::new();
        let n = self.attributes.len();
        let mut i: usize = 0;
        while i < n
            invariant
                n == self.attributes.len(),
                texts == self.attributes@.map_values(|a: Attribute| attribute_text(a)),
                i <= n,
                inner@ == join_texts(texts.take(i as int), ", "@),
            decreases n - i,
        {
            let text = self.attributes[i].to_string();
            assert(texts.take(i + 1).drop_last() =~= texts.take(i as int));
            if i == 0 {
                assert(inner@ == Seq::<char>::empty());
                assert(inner@ + text@ =~= text@);
                inner.append(text.as_str());
            } else {
                inner.append(", ");
                inner.append(text.as_str());
            }
            i = i + 1;
        }
        assert(texts.take(n as int) =~= texts);
        String::from_str("[").concat(inner.as_str()).concat("]")
    }
}

} // verus!
