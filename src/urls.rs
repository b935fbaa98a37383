use vstd::prelude::*;

verus! {

/// Serialization of the URL that the url crate parses from `s`, if any.
pub uninterp spec fn parsed_url(s: Seq<char>) -> Option<Seq<char>>;

/// Serialization of the `file:` URL that the url crate makes of the path `p`, if any.
pub uninterp spec fn file_path_url(p: Seq<char>) -> Option<Seq<char>>;

/// Relies on url::Url::parse: the parsed URL, serialized, or `None` where the
/// text is no valid absolute URL.
#[verifier::external_body]
pub(crate) fn parse_url(s: &str) -> (r: Option<String>)
    ensures
        r is Some <==> parsed_url(s@) is Some,
        r is Some ==> r->0@ == parsed_url(s@)->0,
{
    url::Url::parse(s).ok().map(String::from)
}

/// Relies on url::Url::from_file_path: on Unix it refuses exactly the paths
/// that are not absolute, that is, that do not start with `/`.
#[verifier::external_body]
pub(crate) fn url_of_file_path(p: &str) -> (r: Option<String>)
    ensures
        r is Some <==> (p@.len() > 0 && p@[0] == '/'),
        r is Some <==> file_path_url(p@) is Some,
        r is Some ==> r->0@ == file_path_url(p@)->0,
{
    url::Url::from_file_path(p).ok().map(String::from)
}

/// `rel` joined onto the directory `base` as a Unix path: an absolute `rel`
/// replaces `base`, and a separator is put in where `base` lacks one.
pub open spec fn path_join(base: Seq<char>, rel: Seq<char>) -> Seq<char> {
    if rel.len() > 0 && rel[0] == '/' {
        rel
    } else if base.len() == 0 || base.last() == '/' {
        base + rel
    } else {
        base + seq!['/'] + rel
    }
}

/// Joins `rel` onto the directory `base`, as a Unix path.
pub fn join_path(base: &str, rel: &str) -> (r: String)
    ensures
        r@ == path_join(base@, rel@),
{
    let rn = rel.unicode_len();
    if rn > 0 && rel.get_char(0) == '/' {
        return String::from_str(rel);
    }
    let bn = base.unicode_len();
    let mut r = String::from_str(base);
    if bn > 0 && base.get_char(bn - 1) != '/' {
        let sep = "/";
        proof {
            reveal_strlit("/");
        }
        r.append(sep);
        assert(sep@ =~= seq!['/']);
    }
    r.append(rel);
    r
}

} // verus!
