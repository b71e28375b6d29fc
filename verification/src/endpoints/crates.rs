//! The crates that code on the playground can use.

use vstd::prelude::*;
use crate::json::{
    array_text, list_field, list_json, list_member_fault, list_member_reads, list_value,
    member_found, no_fields, push_field, string_field, string_member, text_value, Fields, FromJson,
    Object, ToJson, ValueView,
};

verus! {

/// One crate that the playground offers.
#[derive(Debug, Clone, PartialEq, Eq)]
pub struct CrateInformation {
    /// The name of the crate.
    pub name: String,
    /// The version of the crate.
    pub version: String,
    /// The name under which code on the playground refers to the crate.
    pub id: String,
}

/// The list of crates that the playground offers.
#[derive(Debug, Clone, PartialEq, Eq)]
pub struct CratesResponse {
    /// The crates, in the order in which the playground lists them.
    pub crates: Vec<CrateInformation>,
}

impl ToJson for CrateInformation {
    open spec fn fields(&self) -> Object {
        seq![
            ("name"@, ValueView::Text(self.name@)),
            ("version"@, ValueView::Text(self.version@)),
            ("id"@, ValueView::Text(self.id@)),
        ]
    }

    fn to_fields(&self) -> (r: Fields) {
        let mut fields = no_fields();
        push_field(&mut fields, "name", text_value(self.name.as_str()));
        push_field(&mut fields, "version", text_value(self.version.as_str()));
        push_field(&mut fields, "id", text_value(self.id.as_str()));
        assert(fields.deep_view() =~= self.fields());
        fields
    }
}

impl FromJson for CrateInformation {
    open spec fn fault(object: Object) -> Option<Seq<char>> {
        if string_member(object, "name"@) is None {
            Some("name"@)
        } else if string_member(object, "version"@) is None {
            Some("version"@)
        } else if string_member(object, "id"@) is None {
            Some("id"@)
        } else {
            None
        }
    }

    open spec fn reads(&self, object: Object) -> bool {
        &&& string_member(object, "name"@) == Some(self.name@)
        &&& string_member(object, "version"@) == Some(self.version@)
        &&& string_member(object, "id"@) == Some(self.id@)
    }

    fn from_fields(fields: &Fields) -> (r: Result<CrateInformation, String>) {
        let name = match string_field(fields, "name") {
            Some(name) => name,
            None => {
                return Err("name".to_owned());
            },
        };
        let version = match string_field(fields, "version") {
            Some(version) => version,
            None => {
                return Err("version".to_owned());
            },
        };
        let id = match string_field(fields, "id") {
            Some(id) => id,
            None => {
                return Err("id".to_owned());
            },
        };
        Ok(CrateInformation { name, version, id })
    }
}

impl ToJson for CratesResponse {
    open spec fn fields(&self) -> Object {
        seq![
            ("crates"@, ValueView::Other(array_text(list_json(self.crates@)))),
        ]
    }

    fn to_fields(&self) -> (r: Fields) {
        let mut fields = no_fields();
        push_field(&mut fields, "crates", list_value(&self.crates));
        assert(fields.deep_view() =~= self.fields());
        fields
    }
}

impl FromJson for CratesResponse {
    open spec fn fault(object: Object) -> Option<Seq<char>> {
        if list_member_fault::<CrateInformation>(object, "crates"@) {
            Some("crates"@)
        } else {
            None
        }
    }

    open spec fn reads(&self, object: Object) -> bool {
        &&& list_member_reads(self.crates@, object, "crates"@)
    }

    fn from_fields(fields: &Fields) -> (r: Result<CratesResponse, String>) {
        let crates = match list_field::<CrateInformation>(fields, "crates") {
            Some(crates) => crates,
            None => {
                return Err("crates".to_owned());
            },
        };
        Ok(CratesResponse { crates })
    }
}

impl CrateInformation {
    /// A crate reads back from its own members: they supply every field,
    /// and what they say is the crate.
    pub proof fn reads_back(self)
        ensures
            CrateInformation::fault(self.fields()) is None,
            self.reads(self.fields()),
    {
        let object = self.fields();
        reveal_strlit("name");
        reveal_strlit("version");
        reveal_strlit("id");
        assert("name"@.len() == 4 && "version"@.len() == 7 && "id"@.len() == 2);
        member_found(object, 0);
        member_found(object, 1);
        member_found(object, 2);
    }
}

} // verus!
