//! From a request's host and path to the key of the object that answers it.

use crate::decode::{
    decode_path, decoded_path, lemma_plain_path_decodes_to_itself, without_leading_slash,
};
use crate::text::{contains_char, ends_with_char, first_index_of, index_of_char, lemma_first_index_of};
use vstd::prelude::*;
use vstd::string::*;

verus! {

/// The name of the default document: `index.html`.
pub open spec fn index_document() -> Seq<char> {
    seq!['i', 'n', 'd', 'e', 'x', '.', 'h', 't', 'm', 'l']
}

/// The tenant that a host header names: its first label, that is all that
/// stands before its first dot. No header names no tenant.
pub open spec fn tenant_of(host: Option<Seq<char>>) -> Seq<char> {
    match host {
        Some(name) => name.take(first_index_of(name, '.')),
        None => Seq::empty(),
    }
}

/// The object path that a decoded request path asks for.
///
/// The empty path and `index.html` are the default document. A path that
/// ends in a slash names a directory, and so does one without any dot: both
/// get the directory's default document. Any other path names a file.
pub open spec fn normalized_path(path: Seq<char>) -> Seq<char> {
    if path.len() == 0 || path == index_document() {
        index_document()
    } else if path.last() == '/' {
        path + index_document()
    } else if !path.contains('.') {
        path + seq!['/'] + index_document()
    } else {
        path
    }
}

/// The key under which the bucket holds `object_path` of `tenant`.
pub open spec fn object_key(tenant: Seq<char>, object_path: Seq<char>) -> Seq<char> {
    if tenant.len() == 0 {
        object_path
    } else {
        tenant + seq!['/'] + object_path
    }
}

/// What a resolved key is made of, as plain sequences.
pub struct KeyParts {
    pub tenant: Seq<char>,
    pub object_path: Seq<char>,
}

impl KeyParts {
    /// The key that the parts form.
    pub open spec fn key(self) -> Seq<char> {
        object_key(self.tenant, self.object_path)
    }
}

/// The parts that a request for `raw_path` on `host` resolves to.
pub open spec fn resolution(host: Option<Seq<char>>, raw_path: Seq<char>) -> KeyParts {
    KeyParts { tenant: tenant_of(host), object_path: normalized_path(decoded_path(raw_path)) }
}

/// The view of an optional host header.
pub open spec fn host_view(host: Option<&str>) -> Option<Seq<char>> {
    match host {
        Some(name) => Some(name@),
        None => None,
    }
}

/// The tenant and the object path that one request resolves to.
#[derive(Clone, Debug, PartialEq, Eq)]
pub struct ResolvedKey {
    pub tenant: String,
    pub object_path: String,
}

impl View for ResolvedKey {
    type V = KeyParts;

    open spec fn view(&self) -> KeyParts {
        KeyParts { tenant: self.tenant@, object_path: self.object_path@ }
    }
}

impl ResolvedKey {
    /// The object key: the object path, behind the tenant and a slash where
    /// there is a tenant.
    pub fn key(&self) -> (key: String)
        ensures
            key@ == self@.key(),
    {
        if self.tenant.as_str().unicode_len() == 0 {
            self.object_path.clone()
        } else {
            let key = self.tenant.clone().concat("/").concat(self.object_path.as_str());
            proof {
                reveal_strlit("/");
                assert("/"@ =~= seq!['/']);
            }
            key
        }
    }
}

/// The default document's name.
pub fn index_document_name() -> (name: &'static str)
    ensures
        name@ == index_document(),
{
    let name = "index.html";
    proof {
        reveal_strlit("index.html");
        assert(name@ =~= index_document());
    }
    name
}

/// The first label of the host header, or the empty tenant without one.
pub fn extract_tenant(host: Option<&str>) -> (tenant: String)
    ensures
        tenant@ == tenant_of(host_view(host)),
{
    match host {
        Some(name) => {
            let end: usize = index_of_char(name, '.');
            proof {
                lemma_first_index_of(name@, '.');
            }
            let label = name.substring_char(0, end);
            assert(label@ =~= name@.take(end as int));
            String::from_str(label)
        },
        None => String::new(),
    }
}

/// Applies the default-document and directory-index rules to a decoded path.
pub fn normalize_path(path: &str) -> (object_path: String)
    ensures
        object_path@ == normalized_path(path@),
{
    let index = String::from_str(index_document_name());
    if path.unicode_len() == 0 || String::from_str(path) == index {
        index
    } else if ends_with_char(path, '/') {
        String::from_str(path).concat(index_document_name())
    } else if !contains_char(path, '.') {
        proof {
            reveal_strlit("/");
            assert("/"@ =~= seq!['/']);
        }
        String::from_str(path).concat("/").concat(index_document_name())
    } else {
        String::from_str(path)
    }
}

/// Resolves a request to the object that answers it. Total: every host and
/// every path resolve to some key.
pub fn resolve(host: Option<&str>, raw_path: &str) -> (resolved: ResolvedKey)
    ensures
        resolved@ == resolution(host_view(host), raw_path@),
{
    let tenant = extract_tenant(host);
    let decoded = decode_path(raw_path);
    let object_path = normalize_path(decoded.as_str());
    ResolvedKey { tenant, object_path }
}

/// Resolution is a function of the host and the path alone: two results
/// for the same request are the same, and so are their keys.
pub proof fn lemma_resolution_is_deterministic(
    host: Option<Seq<char>>,
    raw_path: Seq<char>,
    first: KeyParts,
    second: KeyParts,
)
    requires
        first == resolution(host, raw_path),
        second == resolution(host, raw_path),
    ensures
        first == second,
        first.key() == second.key(),
{
}

/// The tenant is what the host header begins with, and holds no dot.
pub proof fn lemma_tenant_is_first_label(name: Seq<char>)
    ensures
        tenant_of(Some(name)).is_prefix_of(name),
        !tenant_of(Some(name)).contains('.'),
        tenant_of(Some(name)).len() < name.len() ==> name[tenant_of(Some(name)).len() as int]
            == '.',
{
    lemma_first_index_of(name, '.');
    let tenant = tenant_of(Some(name));
    assert forall|i: int| 0 <= i < tenant.len() implies tenant[i] != '.' by {
        assert(tenant[i] == name[i]);
    }
}

/// An object path is never empty, never names a directory and always holds
/// a dot.
pub proof fn lemma_object_path_names_a_file(path: Seq<char>)
    ensures
        normalized_path(path).len() > 0,
        normalized_path(path).last() != '/',
        normalized_path(path).contains('.'),
{
    let index = index_document();
    let object_path = normalized_path(path);
    assert(index[5] == '.');
    if path.len() == 0 || path == index {
    } else if path.last() == '/' {
        assert(object_path[path.len() as int + 5] == '.');
    } else if !path.contains('.') {
        assert(object_path[path.len() as int + 6] == '.');
    }
}

/// Normalizing an object path changes nothing.
pub proof fn lemma_normalizing_twice_is_normalizing_once(path: Seq<char>)
    ensures
        normalized_path(normalized_path(path)) == normalized_path(path),
{
    lemma_object_path_names_a_file(path);
}

/// The key ends in the object path. With a tenant it begins with the tenant
/// and a slash; without one it is the object path.
pub proof fn lemma_key_shape(tenant: Seq<char>, object_path: Seq<char>)
    ensures
        object_key(tenant, object_path).len() >= object_path.len(),
        object_key(tenant, object_path).skip(
            object_key(tenant, object_path).len() - object_path.len(),
        ) == object_path,
        tenant.len() == 0 ==> object_key(tenant, object_path) == object_path,
        tenant.len() > 0 ==> (tenant + seq!['/']).is_prefix_of(object_key(tenant, object_path)),
{
    let key = object_key(tenant, object_path);
    assert(key.skip(key.len() - object_path.len()) =~= object_path);
    if tenant.len() > 0 {
        assert(key.take(tenant.len() as int + 1) =~= tenant + seq!['/']);
    }
}

/// Without a percent sign in the path, the object path is the normalized
/// form of what stands behind the leading slash.
pub proof fn lemma_plain_path_resolves_undecoded(host: Option<Seq<char>>, raw_path: Seq<char>)
    requires
        !raw_path.contains('%'),
    ensures
        resolution(host, raw_path).object_path == normalized_path(
            without_leading_slash(raw_path),
        ),
{
    lemma_plain_path_decodes_to_itself(raw_path);
}

} // verus!
