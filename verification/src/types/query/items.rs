use vstd::prelude::*;

verus! {

/// An item as a client submits it.
#[derive(Debug, Clone)]
pub struct ItemClient {
    pub category: String,
    pub description: String,
    pub dimensions: [i64; 3],
    pub make: String,
    pub model: String,
    pub version: String,
}

/// The display name of an item: `"<model> <version> (<make>)"`.
pub open spec fn spec_item_name(model: Seq<char>, version: Seq<char>, make: Seq<char>) -> Seq<char> {
    model + seq![' '] + version + seq![' ', '('] + make + seq![')']
}

/// The display name lays out the parts in full and in order: the model, a
/// space, the version, a space and an opening parenthesis, the make and a
/// closing parenthesis, and nothing else.
pub proof fn lemma_item_name_layout(model: Seq<char>, version: Seq<char>, make: Seq<char>)
    ensures
        spec_item_name(model, version, make).len() == model.len() + version.len() + make.len() + 4,
        spec_item_name(model, version, make).subrange(0, model.len() as int) == model,
        spec_item_name(model, version, make)[model.len() as int] == ' ',
        spec_item_name(model, version, make).subrange(
            model.len() as int + 1,
            model.len() as int + 1 + version.len() as int,
        ) == version,
        spec_item_name(model, version, make)[model.len() as int + 1 + version.len() as int] == ' ',
        spec_item_name(model, version, make)[model.len() as int + 2 + version.len() as int] == '(',
        spec_item_name(model, version, make).subrange(
            model.len() as int + version.len() as int + 3,
            model.len() as int + version.len() as int + 3 + make.len() as int,
        ) == make,
        spec_item_name(model, version, make).last() == ')',
{
    let n = spec_item_name(model, version, make);
    let a = model.len() as int;
    let b = version.len() as int;
    let c = make.len() as int;
    assert(n.subrange(0, a) =~= model);
    assert(n.subrange(a + 1, a + 1 + b) =~= version);
    assert(n.subrange(a + b + 3, a + b + 3 + c) =~= make);
}

impl ItemClient {
    /// The display name of this item, `"<model> <version> (<make>)"`.
    pub fn name(&self) -> (name: String)
        ensures
            name@ == spec_item_name(self.model@, self.version@, self.make@),
            name@.len() == self.model@.len() + self.version@.len() + self.make@.len() + 4,
            name@.subrange(0, self.model@.len() as int) == self.model@,
            name@.subrange(
                self.model@.len() as int + self.version@.len() as int + 3,
                self.model@.len() as int + self.version@.len() as int + 3 + self.make@.len() as int,
            ) == self.make@,
            name@.last() == ')',
    {
        let mut name = String::new();
        name.append(self.model.as_str());
        name.append(" ");
        name.append(self.version.as_str());
        name.append(" (");
        name.append(self.make.as_str());
        name.append(")");
        proof {
            reveal_strlit(" ");
            reveal_strlit(" (");
            reveal_strlit(")");
        }
        assert(name@ =~= spec_item_name(self.model@, self.version@, self.make@));
        proof {
            lemma_item_name_layout(self.model@, self.version@, self.make@);
        }
        name
    }
}

} // verus!
