//! The resource registry: fixed URI-addressed metadata and a read
//! operation over the one built-in resource.

use vstd::prelude::*;

use crate::json_text::str_eq;
use crate::models::Content;
use crate::models::ContentV;
use crate::models::Resource;
use crate::models::ResourceError;
use crate::models::ResourceV;

verus! {

/// The URI of the built-in resource.
pub open spec fn hosts_uri() -> Seq<char> {
    "file:///etc/hosts"@
}

/// The text the built-in resource reads as.
pub open spec fn hosts_text() -> Seq<char> {
    "127.0.0.1 localhost\n::1 localhost\n"@
}

/// The one content item a successful read returns.
pub open spec fn hosts_contents() -> Seq<ContentV> {
    seq![ContentV { type_: "text"@, text: hosts_text() }]
}

/// The metadata of the built-in resource.
pub open spec fn hosts_resource() -> ResourceV {
    ResourceV { uri: hosts_uri(), mime_type: "text/plain"@ }
}

/// Registry of all available resources, fixed at construction.
#[derive(Debug, Clone)]
pub struct ResourceRegistry {
    resources: Vec<Resource>,
}

impl ResourceRegistry {
    /// The registered resources, in registration order.
    pub closed spec fn spec_resources(&self) -> Seq<Resource> {
        self.resources@
    }

    /// Whether some registered resource carries the given URI.
    pub open spec fn spec_has_uri(&self, uri: Seq<char>) -> bool {
        exists|i: int|
            0 <= i < self.spec_resources().len() && (#[trigger] self.spec_resources()[i])@.uri
                == uri
    }

    /// Registered URIs are unique.
    pub open spec fn wf(&self) -> bool {
        forall|i: int, j: int|
            0 <= i < j < self.spec_resources().len() ==> (#[trigger] self.spec_resources()[i])@.uri
                != (#[trigger] self.spec_resources()[j])@.uri
    }

    /// Creates the registry with the built-in resource registered.
    pub fn new() -> (r: Self)
        ensures
            r.spec_resources().len() == 1,
            r.spec_resources()[0]@ == hosts_resource(),
            r.wf(),
    {
        let mut resources: Vec<Resource> = Vec::new();
        resources.push(
            Resource { uri: "file:///etc/hosts".to_owned(), mime_type: "text/plain".to_owned() },
        );
        ResourceRegistry { resources }
    }

    /// Gets resource metadata by URI; `None` exactly when the URI is not
    /// registered.
    pub fn get_uri(&self, uri: &str) -> (r: Option<&Resource>)
        ensures
            match r {
                Some(res) => res@.uri == uri@ && self.spec_resources().contains(*res),
                None => !self.spec_has_uri(uri@),
            },
    {
        let n = self.resources.len();
        let mut i: usize = 0;
        while i < n
            invariant
                n == self.resources.len(),
                i <= n,
                forall|j: int| 0 <= j < i ==> (#[trigger] self.spec_resources()[j])@.uri != uri@,
            decreases n - i,
        {
            let res = &self.resources[i];
            if str_eq(res.uri.as_str(), uri) {
                proof {
                    assert(self.spec_resources().contains(*res)) by {
                        assert(self.spec_resources()[i as int] == *res);
                    }
                }
                return Some(res);
            }
            i += 1;
        }
        None
    }

    /// Lists the metadata of every registered resource, in registration
    /// order.
    pub fn list_resources(&self) -> (r: Vec<Resource>)
        ensures
            r@.len() == self.spec_resources().len(),
            forall|i: int| 0 <= i < r@.len() ==> (#[trigger] r@[i])@ == self.spec_resources()[i]@,
    {
        let n = self.resources.len();
        let mut r: Vec<Resource> = Vec::new();
        let mut i: usize = 0;
        while i < n
            invariant
                n == self.resources.len(),
                i <= n,
                r@.len() == i,
                forall|j: int| 0 <= j < i ==> (#[trigger] r@[j])@ == self.spec_resources()[j]@,
            decreases n - i,
        {
            let res = &self.resources[i];
            r.push(Resource { uri: res.uri.clone(), mime_type: res.mime_type.clone() });
            i += 1;
        }
        r
    }

    /// Reads the content of a resource: the fixed text exactly when the
    /// URI is registered, `NotFound` for every other URI — never a silent
    /// empty result, never success for an unregistered URI.
    pub fn read_resource(&self, uri: &str) -> (r: Result<Vec<Content>, ResourceError>)
        ensures
            r matches Ok(cs) ==> self.spec_has_uri(uri@) && cs@.map_values(|c: Content| c@)
                == hosts_contents(),
            r matches Err(e) ==> !self.spec_has_uri(uri@) && e == ResourceError::NotFound,
    {
        match self.get_uri(uri) {
            Some(res) => {
                proof {
                    let i = choose|i: int|
                        0 <= i < self.spec_resources().len() && self.spec_resources()[i] == *res;
                    assert((self.spec_resources()[i])@.uri == uri@);
                }
                let text: String = "127.0.0.1 localhost\n::1 localhost\n".to_owned();
                let mut cs: Vec<Content> = Vec::new();
                cs.push(Content { type_: "text".to_owned(), text });
                proof {
                    assert(cs@.map_values(|c: Content| c@) =~= hosts_contents());
                }
                Ok(cs)
            },
            None => Err(ResourceError::NotFound),
        }
    }

    /// Lists every registered resource URI, in registration order.
    pub fn get_resource_uris(&self) -> (r: Vec<String>)
        ensures
            r@.len() == self.spec_resources().len(),
            forall|i: int| 0 <= i < r@.len() ==> (#[trigger] r@[i])@ == self.spec_resources()[
                i
            ]@.uri,
    {
        let n = self.resources.len();
        let mut r: Vec<String> = Vec::new();
        let mut i: usize = 0;
        while i < n
            invariant
                n == self.resources.len(),
                i <= n,
                r@.len() == i,
                forall|j: int| 0 <= j < i ==> (#[trigger] r@[j])@ == self.spec_resources()[
                    j
                ]@.uri,
            decreases n - i,
        {
            r.push(self.resources[i].uri.clone());
            i += 1;
        }
        r
    }
}

impl Default for ResourceRegistry {
    /// The default registry is the built-in one.
    fn default() -> (r: Self)
        ensures
            r.spec_resources().len() == 1,
            r.spec_resources()[0]@ == hosts_resource(),
            r.wf(),
    {
        Self::new()
    }
}

} // verus!
