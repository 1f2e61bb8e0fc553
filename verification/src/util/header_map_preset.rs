use vstd::prelude::*;
use vstd::utf8::encode_utf8;
use reqwest::header::HeaderMap;
use crate::util::header_map::{
    accept_name, ascii_lowercase, authorization_name, content_type_name, header_map_insert,
    header_map_new, header_map_room, header_map_values, HEADER_MAP_ROOM, header_name_parse, header_value_parse,
    header_value_static, no_headers, spec_valid_header_name, spec_valid_header_value,
    header_map_keys_len, header_map_pairs, header_name_text, header_value_bytes, pairs_under,
};
use reqwest::header::{HeaderName, HeaderValue};
use crate::util::text::{concat2, owned};

verus! {

/// Preset sets of request headers.
pub enum HeaderMapPreset {
    ApplicationJson,
    FormUrlEncoded,
    MultipartFormData,
    PlainText,
    BearerToken(String),
    Custom(Vec<(String, String)>),
}

/// The texts of a list of name/value pairs.
pub open spec fn pairs_view(s: Seq<(String, String)>) -> Seq<(Seq<char>, Seq<char>)> {
    Seq::new(s.len(), |i: int| (s[i].0@, s[i].1@))
}

/// What adding each pair of `list` to `m`, in order, gives: a pair whose
/// name and value are both valid sets that name to that one value; any other
/// pair is left out.
pub open spec fn apply_custom(
    m: Map<Seq<char>, Seq<Seq<u8>>>,
    list: Seq<(Seq<char>, Seq<char>)>,
) -> Map<Seq<char>, Seq<Seq<u8>>>
    decreases list.len(),
{
    if list.len() == 0 {
        m
    } else {
        let before = apply_custom(m, list.drop_last());
        let name = list.last().0;
        let value = list.last().1;
        if spec_valid_header_name(name) && spec_valid_header_value(value) {
            before.insert(ascii_lowercase(name), seq![encode_utf8(value)])
        } else {
            before
        }
    }
}

/// `base`, with each name that `other` holds set to the last value `other`
/// holds for it.
pub open spec fn merged(
    base: Map<Seq<char>, Seq<Seq<u8>>>,
    other: Map<Seq<char>, Seq<Seq<u8>>>,
) -> Map<Seq<char>, Seq<Seq<u8>>> {
    Map::new(
        |k: Seq<char>| base.contains_key(k) || other.contains_key(k),
        |k: Seq<char>| if other.contains_key(k) { seq![other[k].last()] } else { base[k] },
    )
}

/// What inserting each pair of `p`, in order, into `m` gives.
pub open spec fn insert_pairs(
    m: Map<Seq<char>, Seq<Seq<u8>>>,
    p: Seq<(HeaderName, HeaderValue)>,
) -> Map<Seq<char>, Seq<Seq<u8>>>
    decreases p.len(),
{
    if p.len() == 0 {
        m
    } else {
        insert_pairs(m, p.drop_last()).insert(
            header_name_text(p.last().0),
            seq![header_value_bytes(p.last().1)],
        )
    }
}

proof fn lemma_insert_pairs(m: Map<Seq<char>, Seq<Seq<u8>>>, p: Seq<(HeaderName, HeaderValue)>, k: Seq<char>)
    ensures
        insert_pairs(m, p).contains_key(k) <==> (m.contains_key(k) || pairs_under(p, k).len() > 0),
        pairs_under(p, k).len() > 0 ==> insert_pairs(m, p)[k] == seq![pairs_under(p, k).last()],
        pairs_under(p, k).len() == 0 && m.contains_key(k) ==> insert_pairs(m, p)[k] == m[k],
    decreases p.len(),
{
    if p.len() > 0 {
        lemma_insert_pairs(m, p.drop_last(), k);
    }
}

proof fn lemma_pairs_under_names(p: Seq<(HeaderName, HeaderValue)>, j: int)
    requires
        0 <= j < p.len(),
    ensures
        pairs_under(p, header_name_text(p[j].0)).len() > 0,
    decreases p.len(),
{
    if j < p.len() - 1 {
        lemma_pairs_under_names(p.drop_last(), j);
    }
}

proof fn lemma_apply_custom_len(m: Map<Seq<char>, Seq<Seq<u8>>>, list: Seq<(Seq<char>, Seq<char>)>)
    requires
        m.dom().finite(),
    ensures
        apply_custom(m, list).dom().finite(),
        apply_custom(m, list).dom().len() <= m.dom().len() + list.len(),
    decreases list.len(),
{
    if list.len() > 0 {
        lemma_apply_custom_len(m, list.drop_last());
    }
}

proof fn lemma_apply_custom_grows(m: Map<Seq<char>, Seq<Seq<u8>>>, list: Seq<(Seq<char>, Seq<char>)>, i: int)
    requires
        0 <= i <= list.len(),
    ensures
        apply_custom(m, list.take(i)).dom().subset_of(apply_custom(m, list).dom()),
    decreases list.len() - i,
{
    if i < list.len() {
        lemma_apply_custom_grows(m, list, i + 1);
        assert(list.take(i + 1).drop_last() =~= list.take(i));
    } else {
        assert(list.take(i) =~= list);
    }
}

/// A map from header name to its one value.
pub open spec fn one_header(name: Seq<char>, value: Seq<char>) -> Map<Seq<char>, Seq<Seq<u8>>> {
    no_headers().insert(name, seq![encode_utf8(value)])
}

impl HeaderMapPreset {
    /// The headers that `build` gives for this preset.
    pub open spec fn preset_headers(self) -> Map<Seq<char>, Seq<Seq<u8>>> {
        match self {
            HeaderMapPreset::ApplicationJson => one_header("content-type"@, "application/json"@).insert(
                "accept"@,
                seq![encode_utf8("application/json"@)],
            ),
            HeaderMapPreset::FormUrlEncoded => one_header(
                "content-type"@,
                "application/x-www-form-urlencoded"@,
            ),
            HeaderMapPreset::MultipartFormData => one_header("content-type"@, "multipart/form-data"@),
            HeaderMapPreset::PlainText => one_header("content-type"@, "text/plain"@),
            HeaderMapPreset::BearerToken(token) => {
                let auth = "Bearer "@ + token@;
                let with_auth = if spec_valid_header_value(auth) {
                    one_header("authorization"@, auth)
                } else {
                    no_headers()
                };
                with_auth.insert("content-type"@, seq![encode_utf8("application/json"@)])
            },
            HeaderMapPreset::Custom(list) => apply_custom(no_headers(), pairs_view(list@)),
        }
    }

    /// The name/value pairs that a preset stands for, as `with_extra_headers`
    /// spells them out.
    pub open spec fn preset_pairs(self) -> Seq<(Seq<char>, Seq<char>)> {
        match self {
            HeaderMapPreset::ApplicationJson => seq![
                ("Content-Type"@, "application/json"@),
                ("Accept"@, "application/json"@),
            ],
            HeaderMapPreset::FormUrlEncoded => seq![
                ("Content-Type"@, "application/x-www-form-urlencoded"@),
            ],
            HeaderMapPreset::MultipartFormData => seq![("Content-Type"@, "multipart/form-data"@)],
            HeaderMapPreset::PlainText => seq![("Content-Type"@, "text/plain"@)],
            HeaderMapPreset::BearerToken(token) => seq![
                ("Authorization"@, "Bearer "@ + token@),
                ("Content-Type"@, "application/json"@),
            ],
            HeaderMapPreset::Custom(list) => pairs_view(list@),
        }
    }

    proof fn lemma_preset_headers_finite(self)
        ensures
            self.preset_headers().dom().finite(),
    {
        if let HeaderMapPreset::Custom(list) = self {
            lemma_apply_custom_len(no_headers(), pairs_view(list@));
        }
    }

    /// Whether `HeaderMap` can hold this preset's headers: a custom list may
    /// name fewer than `HEADER_MAP_ROOM` distinct headers (pairs that are not
    /// valid headers, and repeated names, do not count).
    pub open spec fn buildable(self) -> bool {
        self matches HeaderMapPreset::Custom(list) ==> apply_custom(no_headers(), pairs_view(list@)).dom().len()
            < header_map_room()
    }

    /// Whether `HeaderMap` can hold this preset's headers merged with the
    /// finitely many headers `other`: fewer than `HEADER_MAP_ROOM` distinct
    /// names in all.
    pub open spec fn fits_with(self, other: Map<Seq<char>, Seq<Seq<u8>>>) -> bool {
        &&& other.dom().finite()
        &&& merged(self.preset_headers(), other).dom().len() < header_map_room()
    }

    /// The header map for this preset.
    pub fn build(&self) -> (r: HeaderMap)
        requires
            self.buildable(),
        ensures
            header_map_values(r) == self.preset_headers(),
    {
        self.try_build().unwrap()
    }

    /// The header map for this preset when `HeaderMap` can hold it (see
    /// `buildable`); nothing otherwise.
    pub fn try_build(&self) -> (r: Option<HeaderMap>)
        ensures
            r is Some <==> self.buildable(),
            r matches Some(m) ==> header_map_values(m) == self.preset_headers(),
    {
        let mut headers = header_map_new();
        match self {
            HeaderMapPreset::ApplicationJson => {
                proof {
                    reveal_strlit("application/json");
                }
                header_map_insert(&mut headers, content_type_name(), header_value_static("application/json"));
                header_map_insert(&mut headers, accept_name(), header_value_static("application/json"));
            },
            HeaderMapPreset::FormUrlEncoded => {
                proof {
                    reveal_strlit("application/x-www-form-urlencoded");
                }
                header_map_insert(
                    &mut headers,
                    content_type_name(),
                    header_value_static("application/x-www-form-urlencoded"),
                );
            },
            HeaderMapPreset::MultipartFormData => {
                proof {
                    reveal_strlit("multipart/form-data");
                }
                header_map_insert(&mut headers, content_type_name(), header_value_static("multipart/form-data"));
            },
            HeaderMapPreset::PlainText => {
                proof {
                    reveal_strlit("text/plain");
                }
                header_map_insert(&mut headers, content_type_name(), header_value_static("text/plain"));
            },
            HeaderMapPreset::BearerToken(token) => {
                let auth_value = concat2("Bearer ", token.as_str());
                if let Some(header_value) = header_value_parse(auth_value.as_str()) {
                    header_map_insert(&mut headers, authorization_name(), header_value);
                }
                proof {
                    reveal_strlit("application/json");
                }
                header_map_insert(&mut headers, content_type_name(), header_value_static("application/json"));
            },
            HeaderMapPreset::Custom(custom_headers) => {
                let ghost all = pairs_view(custom_headers@);
                proof {
                    lemma_apply_custom_len(no_headers(), all);
                }
                let n = custom_headers.len();
                let mut i: usize = 0;
                while i < n
                    invariant
                        n == custom_headers@.len(),
                        all == pairs_view(custom_headers@),
                        i <= n,
                        header_map_values(headers) == apply_custom(no_headers(), all.take(i as int)),
                        header_map_values(headers).dom().finite(),
                        apply_custom(no_headers(), all).dom().finite(),
                        self.buildable() <==> apply_custom(no_headers(), all).dom().len() < header_map_room(),
                    decreases n - i,
                {
                    let name = &custom_headers[i].0;
                    let value = &custom_headers[i].1;
                    let parsed_name = header_name_parse(name.as_str());
                    let parsed_value = header_value_parse(value.as_str());
                    assert(all.take(i + 1).drop_last() =~= all.take(i as int));
                    if let (Some(header_name), Some(header_value)) = (parsed_name, parsed_value) {
                        if header_map_keys_len(&headers) >= HEADER_MAP_ROOM {
                            proof {
                                lemma_apply_custom_grows(no_headers(), all, i as int);
                                vstd::set_lib::lemma_len_subset(
                                    header_map_values(headers).dom(),
                                    apply_custom(no_headers(), all).dom(),
                                );
                            }
                            return None;
                        }
                        header_map_insert(&mut headers, header_name, header_value);
                    }
                    i = i + 1;
                }
                assert(all.take(n as int) =~= all);
                if header_map_keys_len(&headers) >= HEADER_MAP_ROOM {
                    return None;
                }
            },
        }
        Some(headers)
    }

    /// The headers of this preset, with those of `other` put over them.
    pub fn merge(&self, other: &HeaderMap) -> (r: HeaderMap)
        requires
            self.fits_with(header_map_values(*other)),
        ensures
            header_map_values(r) == merged(self.preset_headers(), header_map_values(*other)),
    {
        self.try_merge(other).unwrap()
    }

    /// `merge`, when `HeaderMap` can hold the two together (see `fits_with`);
    /// nothing otherwise.
    pub fn try_merge(&self, other: &HeaderMap) -> (r: Option<HeaderMap>)
        ensures
            r is Some <==> self.fits_with(header_map_values(*other)),
            r matches Some(m) ==> header_map_values(m) == merged(self.preset_headers(), header_map_values(*other)),
    {
        let ghost base = self.preset_headers();
        let ghost theirs = header_map_values(*other);
        proof {
            self.lemma_preset_headers_finite();
            assert(merged(base, theirs).dom() =~= base.dom().union(theirs.dom()));
        }
        let mut result = match self.try_build() {
            Some(m) => m,
            None => {
                proof {
                    if theirs.dom().finite() {
                        vstd::set_lib::lemma_len_subset(base.dom(), base.dom().union(theirs.dom()));
                    }
                }
                return None;
            },
        };
        let mut rest = header_map_pairs(other);
        let ghost pairs = rest@;
        let n = rest.len();
        let mut i: usize = 0;
        assert(pairs.skip(0) =~= pairs);
        while i < n
            invariant
                n == pairs.len(),
                i <= n,
                rest@ == pairs.skip(i as int),
                base == self.preset_headers(),
                theirs == header_map_values(*other),
                merged(base, theirs).dom() == base.dom().union(theirs.dom()),
                base.dom().finite(),
                forall|k: Seq<char>| #[trigger] pairs_under(pairs, k) == if theirs.contains_key(k) {
                    theirs[k]
                } else {
                    Seq::empty()
                },
                header_map_values(result) == insert_pairs(base, pairs.take(i as int)),
                header_map_values(result).dom().subset_of(base.dom().union(theirs.dom())),
            decreases n - i,
        {
            let (name, value) = rest.remove(0);
            assert(rest@ =~= pairs.skip(i + 1));
            proof {
                lemma_pairs_under_names(pairs, i as int);
            }
            if header_map_keys_len(&result) >= HEADER_MAP_ROOM {
                proof {
                    if theirs.dom().finite() {
                        vstd::set_lib::lemma_len_subset(
                            header_map_values(result).dom(),
                            base.dom().union(theirs.dom()),
                        );
                    }
                }
                return None;
            }
            header_map_insert(&mut result, name, value);
            assert(pairs.take(i + 1).drop_last() =~= pairs.take(i as int));
            i = i + 1;
        }
        proof {
            assert(pairs.take(n as int) =~= pairs);
            assert forall|k: Seq<char>| true implies #[trigger] header_map_values(result).contains_key(k)
                == merged(base, theirs).contains_key(k) && (header_map_values(result).contains_key(k)
                ==> header_map_values(result)[k] == merged(base, theirs)[k]) by {
                lemma_insert_pairs(base, pairs, k);
            }
            assert(header_map_values(result) =~= merged(base, theirs));
        }
        let names = header_map_keys_len(&result);
        proof {
            vstd::set_lib::lemma_set_union_finite_iff(base.dom(), theirs.dom());
        }
        if names >= HEADER_MAP_ROOM {
            return None;
        }
        Some(result)
    }

    /// This preset spelled out as a custom list, with `extra_headers` after it.
    pub fn with_extra_headers(self, extra_headers: Vec<(String, String)>) -> (r: HeaderMapPreset)
        ensures
            r matches HeaderMapPreset::Custom(list) && pairs_view(list@) == self.preset_pairs()
                + pairs_view(extra_headers@),
    {
        let mut extra = extra_headers;
        let ghost extra_view = pairs_view(extra@);
        let mut headers: Vec<(String, String)> = match self {
            HeaderMapPreset::Custom(headers) => headers,
            HeaderMapPreset::ApplicationJson => vec![
                (owned("Content-Type"), owned("application/json")),
                (owned("Accept"), owned("application/json")),
            ],
            HeaderMapPreset::FormUrlEncoded => vec![
                (owned("Content-Type"), owned("application/x-www-form-urlencoded")),
            ],
            HeaderMapPreset::MultipartFormData => vec![
                (owned("Content-Type"), owned("multipart/form-data")),
            ],
            HeaderMapPreset::PlainText => vec![(owned("Content-Type"), owned("text/plain"))],
            HeaderMapPreset::BearerToken(token) => vec![
                (owned("Authorization"), concat2("Bearer ", token.as_str())),
                (owned("Content-Type"), owned("application/json")),
            ],
        };
        let ghost base = headers@;
        assert(pairs_view(base) =~= self.preset_pairs());
        headers.append(&mut extra);
        assert(pairs_view(headers@) =~= pairs_view(base) + extra_view);
        HeaderMapPreset::Custom(headers)
    }

    /// A bearer-token preset for `token`.
    pub fn application_json_with_auth(token: &str) -> (r: HeaderMapPreset)
        ensures
            r matches HeaderMapPreset::BearerToken(t) && t@ == token@,
    {
        HeaderMapPreset::BearerToken(owned(token))
    }
}

proof fn lemma_apply_custom_concat(
    m: Map<Seq<char>, Seq<Seq<u8>>>,
    a: Seq<(Seq<char>, Seq<char>)>,
    b: Seq<(Seq<char>, Seq<char>)>,
)
    ensures
        apply_custom(m, a + b) == apply_custom(apply_custom(m, a), b),
    decreases b.len(),
{
    if b.len() == 0 {
        assert(a + b =~= a);
    } else {
        lemma_apply_custom_concat(m, a, b.drop_last());
        assert((a + b).drop_last() =~= a + b.drop_last());
    }
}

proof fn lemma_content_type_name()
    ensures
        spec_valid_header_name("Content-Type"@),
        ascii_lowercase("Content-Type"@) == "content-type"@,
{
    reveal_strlit("Content-Type");
    reveal_strlit("content-type");
    assert(ascii_lowercase("Content-Type"@) =~= "content-type"@);
}

proof fn lemma_accept_name()
    ensures
        spec_valid_header_name("Accept"@),
        ascii_lowercase("Accept"@) == "accept"@,
{
    reveal_strlit("Accept");
    reveal_strlit("accept");
    assert(ascii_lowercase("Accept"@) =~= "accept"@);
}

proof fn lemma_authorization_name()
    ensures
        spec_valid_header_name("Authorization"@),
        ascii_lowercase("Authorization"@) == "authorization"@,
{
    reveal_strlit("Authorization");
    reveal_strlit("authorization");
    assert(ascii_lowercase("Authorization"@) =~= "authorization"@);
}

proof fn lemma_preset_values_valid()
    ensures
        spec_valid_header_value("application/json"@),
        spec_valid_header_value("application/x-www-form-urlencoded"@),
        spec_valid_header_value("multipart/form-data"@),
        spec_valid_header_value("text/plain"@),
{
    reveal_strlit("application/json");
    reveal_strlit("application/x-www-form-urlencoded");
    reveal_strlit("multipart/form-data");
    reveal_strlit("text/plain");
}

/// Spelling a preset out as name/value pairs loses nothing: the pairs build
/// the preset's own headers.
pub proof fn law_preset_pairs_build(p: HeaderMapPreset)
    ensures
        apply_custom(no_headers(), p.preset_pairs()) == p.preset_headers(),
{
    lemma_content_type_name();
    lemma_accept_name();
    lemma_authorization_name();
    lemma_preset_values_valid();
    let pairs = p.preset_pairs();
    if !(p is Custom) {
        let first = pairs.take(1);
        assert(first.drop_last() =~= Seq::<(Seq<char>, Seq<char>)>::empty());
        assert(apply_custom(no_headers(), first.drop_last()) == no_headers());
        assert(first.last() == pairs[0]);
        if pairs.len() == 1 {
            assert(first =~= pairs);
            assert(apply_custom(no_headers(), pairs) =~= p.preset_headers());
        } else {
            assert(pairs.drop_last() =~= first);
            let m1 = apply_custom(no_headers(), first);
            assert(apply_custom(no_headers(), pairs) == m1.insert(
                "content-type"@,
                seq![encode_utf8("application/json"@)],
            ) || p is ApplicationJson);
            if let HeaderMapPreset::BearerToken(token) = p {
                let auth = "Bearer "@ + token@;
                if spec_valid_header_value(auth) {
                    assert(m1 == one_header("authorization"@, auth));
                } else {
                    assert(m1 == no_headers());
                }
            } else {
                assert(m1 == one_header("content-type"@, "application/json"@));
                assert(apply_custom(no_headers(), pairs) == m1.insert(
                    "accept"@,
                    seq![encode_utf8("application/json"@)],
                ));
            }
            assert(apply_custom(no_headers(), pairs) =~= p.preset_headers());
        }
    }
}

/// Adding extra headers to a preset and building the result gives the
/// preset's headers with the extra ones set over them, one after another.
pub proof fn law_extra_headers_extend_build(p: HeaderMapPreset, extra: Seq<(Seq<char>, Seq<char>)>)
    ensures
        apply_custom(no_headers(), p.preset_pairs() + extra) == apply_custom(p.preset_headers(), extra),
{
    lemma_apply_custom_concat(no_headers(), p.preset_pairs(), extra);
    law_preset_pairs_build(p);
}

proof fn lemma_apply_custom_as_merge(base: Map<Seq<char>, Seq<Seq<u8>>>, extra: Seq<(Seq<char>, Seq<char>)>)
    ensures
        apply_custom(base, extra) == merged(base, apply_custom(no_headers(), extra)),
    decreases extra.len(),
{
    if extra.len() == 0 {
        assert(merged(base, no_headers()) =~= base);
    } else {
        lemma_apply_custom_as_merge(base, extra.drop_last());
        let theirs = apply_custom(no_headers(), extra.drop_last());
        let name = extra.last().0;
        let value = extra.last().1;
        if spec_valid_header_name(name) && spec_valid_header_value(value) {
            let k = ascii_lowercase(name);
            let v = seq![encode_utf8(value)];
            assert(v.last() == encode_utf8(value));
            assert(merged(base, theirs.insert(k, v)) =~= merged(base, theirs).insert(k, v));
        }
    }
}

/// Adding extra headers to a preset and building the result gives the same
/// headers as building the extra headers alone and merging them over the
/// preset.
pub proof fn law_extra_headers_build_as_merge(p: HeaderMapPreset, extra: Seq<(Seq<char>, Seq<char>)>)
    ensures
        apply_custom(no_headers(), p.preset_pairs() + extra) == merged(
            p.preset_headers(),
            apply_custom(no_headers(), extra),
        ),
{
    law_extra_headers_extend_build(p, extra);
    lemma_apply_custom_as_merge(p.preset_headers(), extra);
}

} // verus!
