//! Sharing code as a gist.

use vstd::prelude::*;
use crate::json::{
    member_found, no_fields, push_field, string_field, string_member, text_value, Fields, FromJson,
    Object, ToJson, ValueView,
};

verus! {

/// A request to store code as a new gist.
#[derive(Debug, Clone, PartialEq, Eq)]
pub struct GistCreateRequest {
    /// The code to store.
    pub code: String,
}

impl GistCreateRequest {
    /// A request with exactly the given settings.
    pub fn new(code: String) -> (r: GistCreateRequest)
        ensures
            r == (GistCreateRequest { code }),
    {
        GistCreateRequest { code }
    }
}

/// A stored gist, as the playground describes it after storing or fetching it.
#[derive(Debug, Clone, PartialEq, Eq)]
pub struct GistResponse {
    /// The id of the gist.
    pub id: String,
    /// The public URL of the gist.
    pub url: String,
    /// The code that the gist holds.
    pub code: String,
}

impl ToJson for GistCreateRequest {
    open spec fn fields(&self) -> Object {
        seq![
            ("code"@, ValueView::Text(self.code@)),
        ]
    }

    fn to_fields(&self) -> (r: Fields) {
        let mut fields = no_fields();
        push_field(&mut fields, "code", text_value(self.code.as_str()));
        assert(fields.deep_view() =~= self.fields());
        fields
    }
}

impl FromJson for GistCreateRequest {
    open spec fn fault(object: Object) -> Option<Seq<char>> {
        if string_member(object, "code"@) is None {
            Some("code"@)
        } else {
            None
        }
    }

    open spec fn reads(&self, object: Object) -> bool {
        &&& string_member(object, "code"@) == Some(self.code@)
    }

    fn from_fields(fields: &Fields) -> (r: Result<GistCreateRequest, String>) {
        let code = match string_field(fields, "code") {
            Some(code) => code,
            None => {
                return Err("code".to_owned());
            },
        };
        Ok(GistCreateRequest { code })
    }
}

impl ToJson for GistResponse {
    open spec fn fields(&self) -> Object {
        seq![
            ("id"@, ValueView::Text(self.id@)),
            ("url"@, ValueView::Text(self.url@)),
            ("code"@, ValueView::Text(self.code@)),
        ]
    }

    fn to_fields(&self) -> (r: Fields) {
        let mut fields = no_fields();
        push_field(&mut fields, "id", text_value(self.id.as_str()));
        push_field(&mut fields, "url", text_value(self.url.as_str()));
        push_field(&mut fields, "code", text_value(self.code.as_str()));
        assert(fields.deep_view() =~= self.fields());
        fields
    }
}

impl FromJson for GistResponse {
    open spec fn fault(object: Object) -> Option<Seq<char>> {
        if string_member(object, "id"@) is None {
            Some("id"@)
        } else if string_member(object, "url"@) is None {
            Some("url"@)
        } else if string_member(object, "code"@) is None {
            Some("code"@)
        } else {
            None
        }
    }

    open spec fn reads(&self, object: Object) -> bool {
        &&& string_member(object, "id"@) == Some(self.id@)
        &&& string_member(object, "url"@) == Some(self.url@)
        &&& string_member(object, "code"@) == Some(self.code@)
    }

    fn from_fields(fields: &Fields) -> (r: Result<GistResponse, String>) {
        let id = match string_field(fields, "id") {
            Some(id) => id,
            None => {
                return Err("id".to_owned());
            },
        };
        let url = match string_field(fields, "url") {
            Some(url) => url,
            None => {
                return Err("url".to_owned());
            },
        };
        let code = match string_field(fields, "code") {
            Some(code) => code,
            None => {
                return Err("code".to_owned());
            },
        };
        Ok(GistResponse { id, url, code })
    }
}

impl GistCreateRequest {
    /// A request reads back from its own members: they supply every field,
    /// and what they say is the request.
    pub proof fn reads_back(self)
        ensures
            GistCreateRequest::fault(self.fields()) is None,
            self.reads(self.fields()),
    {
        let object = self.fields();
        reveal_strlit("code");
        member_found(object, 0);
    }
}

impl GistResponse {
    /// A gist reads back from its own members: they supply every field,
    /// and what they say is the gist.
    pub proof fn reads_back(self)
        ensures
            GistResponse::fault(self.fields()) is None,
            self.reads(self.fields()),
    {
        let object = self.fields();
        reveal_strlit("id");
        reveal_strlit("url");
        reveal_strlit("code");
        assert("id"@.len() == 2 && "url"@.len() == 3 && "code"@.len() == 4);
        member_found(object, 0);
        member_found(object, 1);
        member_found(object, 2);
    }
}

} // verus!
