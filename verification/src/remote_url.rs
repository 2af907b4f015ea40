//! Reading a project's group and path out of its repository URL, for
//! initializing a tracked project. The URL grammar itself is the `url`
//! crate's business; the decisions over what it found are verified here.

use vstd::prelude::*;
use crate::strutil::str_eq;

verus! {

#[verifier::external_type_specification]
#[verifier::external_body]
pub struct ExUrl(url::Url);

/// Relies on url::Url::parse: parses an absolute URL; the error is turned
/// into its message.
#[verifier::external_body]
fn parse_url(s: &str) -> (r: Result<url::Url, String>) {
    match url::Url::parse(s) {
        Ok(u) => Ok(u),
        Err(e) => Err(e.to_string()),
    }
}

/// Relies on url::Url::host_str: the URL's host, when it has one.
#[verifier::external_body]
fn url_host_str(u: &url::Url) -> (r: Option<String>) {
    match u.host_str() {
        Some(h) => Some(h.to_string()),
        None => None,
    }
}

/// Relies on url::Url::path_segments: the slash-separated segments of the
/// URL's path, when it can be split.
#[verifier::external_body]
fn url_path_segments(u: &url::Url) -> (r: Option<Vec<String>>) {
    match u.path_segments() {
        Some(it) => Some(it.map(|s| s.to_string()).collect()),
        None => None,
    }
}

/// The segments joined back with slashes.
pub open spec fn spec_join_slash(v: Seq<Seq<char>>) -> Seq<char>
    decreases v.len(),
{
    if v.len() == 0 {
        Seq::empty()
    } else if v.len() == 1 {
        v[0]
    } else {
        spec_join_slash(v.drop_last()) + "/"@ + v.last()
    }
}

/// Joins path segments back with slashes.
fn join_slash(v: &Vec<String>) -> (r: String)
    ensures
        r@ == spec_join_slash(v.deep_view()),
{
    let mut r = String::new();
    let mut i: usize = 0;
    proof {
        assert(v.deep_view().take(0) =~= Seq::<Seq<char>>::empty());
        assert(r@ =~= spec_join_slash(v.deep_view().take(0)));
    }
    while i < v.len()
        invariant
            0 <= i <= v@.len(),
            v.deep_view().len() == v@.len(),
            r@ == spec_join_slash(v.deep_view().take(i as int)),
        decreases v@.len() - i,
    {
        if i > 0 {
            r.append("/");
        }
        r.append(v[i].as_str());
        proof {
            let t = v.deep_view().take(i + 1);
            assert(t.drop_last() =~= v.deep_view().take(i as int));
            assert(t.last() == v.deep_view()[i as int]);
            if i == 0 {
                assert(r@ =~= spec_join_slash(t));
            }
        }
        i += 1;
    }
    proof {
        assert(v.deep_view().take(v.deep_view().len() as int) =~= v.deep_view());
    }
    r
}

/// What `project_remote_info` decides once the URL has been taken apart:
/// the host must match the configured one, and the path must carry at
/// least one segment; then the group is the first segment and the project
/// is the whole path.
pub fn parse_remote(
    host: Option<String>,
    segments: Option<Vec<String>>,
    expected_host: &String,
) -> (r: Result<(String, String), String>)
    ensures
        match host {
            None => r matches Err(e) && e@ == "Хост репозитория проекта отличен от "@
                + expected_host@,
            Some(h) => {
                if h@ != expected_host@ {
                    r matches Err(e) && e@ == "Хост репозитория проекта отличен от "@
                        + expected_host@
                } else {
                    match segments {
                        None => r matches Err(e) && e@ == "Пустой адресс репозитория"@,
                        Some(segs) => {
                            if segs.deep_view().len() == 0 {
                                r matches Err(e) && e@ == "Пустой адресс репозитория"@
                            } else {
                                r matches Ok(gp) && gp.0@ == segs.deep_view()[0] && gp.1@
                                    == spec_join_slash(segs.deep_view())
                            }
                        },
                    }
                }
            },
        },
{
    let host_matches = match &host {
        Some(h) => str_eq(h.as_str(), expected_host.as_str()),
        None => false,
    };
    if !host_matches {
        let mut e = String::from_str("Хост репозитория проекта отличен от ");
        e.append(expected_host.as_str());
        return Err(e);
    }
    match segments {
        None => Err(String::from_str("Пустой адресс репозитория")),
        Some(segs) => {
            if segs.len() == 0 {
                Err(String::from_str("Пустой адресс репозитория"))
            } else {
                let group = segs[0].clone();
                let project = join_slash(&segs);
                Ok((group, project))
            }
        },
    }
}

/// Takes the repository URL apart and decides the group and project path
/// against the configured host. The URL's host and segments are whatever
/// the `url` crate read out of it; the decision over them is exact in
/// [`parse_remote`]. Every error is one of three: the URL did not parse
/// (with the parser's detail appended), the host differs from the
/// configured one, or the path is empty.
pub fn project_remote_info(raw_remote: &String, expected_host: &String) -> (r: Result<
    (String, String),
    String,
>)
    ensures
        r matches Ok(gp) ==> gp.1@.len() >= gp.0@.len() && (exists|segs: Seq<Seq<char>>|
            segs.len() > 0 && gp.0@ == segs[0] && gp.1@ == #[trigger] spec_join_slash(segs)),
        r matches Err(e) ==> (exists|detail: Seq<char>|
            e@ == "Некорректный адрес репозитория: "@ + detail) || e@
            == "Хост репозитория проекта отличен от "@ + expected_host@ || e@
            == "Пустой адресс репозитория"@,
{
    match parse_url(raw_remote.as_str()) {
        Err(e) => {
            let mut msg = String::from_str("Некорректный адрес репозитория: ");
            let ghost detail = e@;
            msg.append(e.as_str());
            proof {
                assert(msg@ == "Некорректный адрес репозитория: "@ + detail);
            }
            Err(msg)
        },
        Ok(u) => {
            let host = url_host_str(&u);
            let segments = url_path_segments(&u);
            let ghost segsv: Seq<Seq<char>> = match &segments {
                Some(s) => s.deep_view(),
                None => Seq::empty(),
            };
            let r = parse_remote(host, segments, expected_host);
            proof {
                if segsv.len() > 0 {
                    lemma_join_slash_first(segsv);
                }
                if r is Ok {
                    assert(segsv.len() > 0 && r->Ok_0.0@ == segsv[0] && r->Ok_0.1@
                        == spec_join_slash(segsv));
                }
            }
            r
        },
    }
}

/// Joining segments yields at least the first segment's characters.
proof fn lemma_join_slash_first(v: Seq<Seq<char>>)
    requires
        v.len() > 0,
    ensures
        spec_join_slash(v).len() >= v[0].len(),
    decreases v.len(),
{
    if v.len() > 1 {
        lemma_join_slash_first(v.drop_last());
        assert(v.drop_last()[0] == v[0]);
    }
}

} // verus!
