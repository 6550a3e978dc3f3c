//! How the configuration document is laid out as JSON: an exact encoder,
//! a tolerant decoder (absent fields default, the schema is additive-only),
//! and the proof that decoding an encoded document gives it back.

use vstd::prelude::*;
use vstd::string::StrSliceExecFns;

use crate::json::{jentries_of, jvals_of, lemma_jentries_of, lemma_jvals_of, JVal, Json};
use crate::strutil::str_eq;
use crate::types::amp::{AmpModelMapping, AmpModelMappingV, AmpOpenAIModel, AmpOpenAIModelV};
use crate::types::amp::{AmpOpenAIProvider, AmpOpenAIProviderV};
use crate::types::api_keys::{ClaudeApiKey, ClaudeApiKeyV, CodexApiKey, CodexApiKeyV};
use crate::types::api_keys::{GeminiApiKey, GeminiApiKeyV, ModelMapping, ModelMappingV};
use crate::types::copilot::{CopilotConfig, CopilotConfigV};
use crate::config::AppConfig;

verus! {

/// The first value bound to `name` in an object's entry list.
pub open spec fn jlookup(o: Seq<(Seq<char>, JVal)>, name: Seq<char>) -> Option<JVal>
    decreases o.len(),
{
    if o.len() == 0 {
        None
    } else if o[0].0 == name {
        Some(o[0].1)
    } else {
        jlookup(o.subrange(1, o.len() as int), name)
    }
}

proof fn lemma_jlookup_advance(e: Seq<(Seq<char>, JVal)>, name: Seq<char>, i: int)
    requires
        0 <= i < e.len(),
        e[i].0 != name,
        jlookup(e, name) == jlookup(e.subrange(i, e.len() as int), name),
    ensures
        jlookup(e, name) == jlookup(e.subrange(i + 1, e.len() as int), name),
{
    let s = e.subrange(i, e.len() as int);
    assert(s[0] == e[i]);
    assert(s.subrange(1, s.len() as int) =~= e.subrange(i + 1, e.len() as int));
}

/// Finds the value bound to `name`, as `jlookup` says.
#[verifier::loop_isolation(false)]
fn jget<'a>(o: &'a Vec<(String, Json)>, name: &str) -> (r: Option<&'a Json>)
    ensures
        match r {
            Some(x) => jlookup(jentries_of(o@), name@) == Some(x@),
            None => jlookup(jentries_of(o@), name@) is None,
        },
{
    let ghost e = jentries_of(o@);
    proof {
        lemma_jentries_of(o@);
        assert(e.subrange(0, e.len() as int) =~= e);
    }
    let mut i: usize = 0;
    while i < o.len()
        invariant
            i <= o@.len(),
            jlookup(e, name@) == jlookup(e.subrange(i as int, e.len() as int), name@),
        decreases o@.len() - i,
    {
        if str_eq(o[i].0.as_str(), name) {
            proof {
                let s = e.subrange(i as int, e.len() as int);
                assert(s[0] == e[i as int]);
                assert(e[i as int] == (o@[i as int].0@, o@[i as int].1@));
            }
            return Some(&o[i].1);
        }
        proof {
            assert(e[i as int] == (o@[i as int].0@, o@[i as int].1@));
            lemma_jlookup_advance(e, name@, i as int);
        }
        i = i + 1;
    }
    proof {
        assert(e.subrange(e.len() as int, e.len() as int) =~= Seq::<(Seq<char>, JVal)>::empty());
    }
    None
}

// --- generic field readers over an object's entry list ---

/// A defaulted boolean field: absent is fine, anything but a boolean is not.
pub open spec fn jf_bool_ok(o: Seq<(Seq<char>, JVal)>, name: Seq<char>) -> bool {
    match jlookup(o, name) {
        None => true,
        Some(v) => v is Bool,
    }
}

pub open spec fn jf_bool(o: Seq<(Seq<char>, JVal)>, name: Seq<char>, d: bool) -> bool {
    match jlookup(o, name) {
        Some(JVal::Bool(b)) => b,
        _ => d,
    }
}

/// A boolean field the schema requires.
pub open spec fn jf_req_bool_ok(o: Seq<(Seq<char>, JVal)>, name: Seq<char>) -> bool {
    jlookup(o, name) matches Some(JVal::Bool(_))
}

/// A defaulted integer field within the given bounds.
pub open spec fn jf_int_ok(o: Seq<(Seq<char>, JVal)>, name: Seq<char>, lo: int, hi: int) -> bool {
    match jlookup(o, name) {
        None => true,
        Some(JVal::Int(i)) => lo <= i <= hi,
        Some(_) => false,
    }
}

pub open spec fn jf_int(o: Seq<(Seq<char>, JVal)>, name: Seq<char>, d: i64) -> i64 {
    match jlookup(o, name) {
        Some(JVal::Int(i)) => i,
        _ => d,
    }
}

/// An integer field the schema requires, within the given bounds.
pub open spec fn jf_req_int_ok(
    o: Seq<(Seq<char>, JVal)>,
    name: Seq<char>,
    lo: int,
    hi: int,
) -> bool {
    match jlookup(o, name) {
        Some(JVal::Int(i)) => lo <= i <= hi,
        _ => false,
    }
}

/// A defaulted text field.
pub open spec fn jf_str_ok(o: Seq<(Seq<char>, JVal)>, name: Seq<char>) -> bool {
    match jlookup(o, name) {
        None => true,
        Some(v) => v is Str,
    }
}

pub open spec fn jf_str(o: Seq<(Seq<char>, JVal)>, name: Seq<char>, d: Seq<char>) -> Seq<char> {
    match jlookup(o, name) {
        Some(JVal::Str(s)) => s,
        _ => d,
    }
}

/// A text field the schema requires.
pub open spec fn jf_req_str_ok(o: Seq<(Seq<char>, JVal)>, name: Seq<char>) -> bool {
    jlookup(o, name) matches Some(JVal::Str(_))
}

/// An optional text field: absent or null stands for no value.
pub open spec fn jf_opt_str_ok(o: Seq<(Seq<char>, JVal)>, name: Seq<char>) -> bool {
    match jlookup(o, name) {
        None => true,
        Some(JVal::Null) => true,
        Some(JVal::Str(_)) => true,
        Some(_) => false,
    }
}

pub open spec fn jf_opt_str(o: Seq<(Seq<char>, JVal)>, name: Seq<char>) -> Option<Seq<char>> {
    match jlookup(o, name) {
        Some(JVal::Str(s)) => Some(s),
        _ => None,
    }
}

/// An optional port-sized integer field: absent or null stands for no value.
pub open spec fn jf_opt_u16_ok(o: Seq<(Seq<char>, JVal)>, name: Seq<char>) -> bool {
    match jlookup(o, name) {
        None => true,
        Some(JVal::Null) => true,
        Some(JVal::Int(i)) => 0 <= i <= 65535,
        Some(_) => false,
    }
}

pub open spec fn jf_opt_u16(o: Seq<(Seq<char>, JVal)>, name: Seq<char>) -> Option<u16> {
    match jlookup(o, name) {
        Some(JVal::Int(i)) => Some(i as u16),
        _ => None,
    }
}

/// What a present optional value encodes to: `null` when there is none.
pub open spec fn enc_opt_str(v: Option<Seq<char>>) -> JVal {
    match v {
        Some(s) => JVal::Str(s),
        None => JVal::Null,
    }
}

pub open spec fn enc_opt_u16(v: Option<u16>) -> JVal {
    match v {
        Some(i) => JVal::Int(i as i64),
        None => JVal::Null,
    }
}

// --- exec readers mirroring the generic field readers ---

fn get_bool(o: &Vec<(String, Json)>, name: &str, d: bool) -> (r: Option<bool>)
    ensures
        r matches Some(b) ==> jf_bool_ok(jentries_of(o@), name@) && b == jf_bool(
            jentries_of(o@),
            name@,
            d,
        ),
        r is None ==> !jf_bool_ok(jentries_of(o@), name@),
{
    match jget(o, name) {
        None => Some(d),
        Some(Json::Bool(b)) => Some(*b),
        Some(_) => None,
    }
}

fn get_req_bool(o: &Vec<(String, Json)>, name: &str) -> (r: Option<bool>)
    ensures
        r matches Some(b) ==> jf_req_bool_ok(jentries_of(o@), name@) && b == jf_bool(
            jentries_of(o@),
            name@,
            false,
        ),
        r is None ==> !jf_req_bool_ok(jentries_of(o@), name@),
{
    match jget(o, name) {
        Some(Json::Bool(b)) => Some(*b),
        _ => None,
    }
}

fn get_int(o: &Vec<(String, Json)>, name: &str, lo: i64, hi: i64, d: i64) -> (r: Option<i64>)
    requires
        lo <= d <= hi,
    ensures
        r matches Some(i) ==> jf_int_ok(jentries_of(o@), name@, lo as int, hi as int) && i
            == jf_int(jentries_of(o@), name@, d) && lo <= i <= hi,
        r is None ==> !jf_int_ok(jentries_of(o@), name@, lo as int, hi as int),
{
    match jget(o, name) {
        None => Some(d),
        Some(Json::Int(i)) => {
            if lo <= *i && *i <= hi {
                Some(*i)
            } else {
                None
            }
        },
        Some(_) => None,
    }
}

fn get_req_int(o: &Vec<(String, Json)>, name: &str, lo: i64, hi: i64) -> (r: Option<i64>)
    ensures
        r matches Some(i) ==> jf_req_int_ok(jentries_of(o@), name@, lo as int, hi as int) && i
            == jf_int(jentries_of(o@), name@, 0) && lo <= i <= hi,
        r is None ==> !jf_req_int_ok(jentries_of(o@), name@, lo as int, hi as int),
{
    match jget(o, name) {
        Some(Json::Int(i)) => {
            if lo <= *i && *i <= hi {
                Some(*i)
            } else {
                None
            }
        },
        _ => None,
    }
}

fn get_string(o: &Vec<(String, Json)>, name: &str, d: &str) -> (r: Option<String>)
    ensures
        r matches Some(s) ==> jf_str_ok(jentries_of(o@), name@) && s@ == jf_str(
            jentries_of(o@),
            name@,
            d@,
        ),
        r is None ==> !jf_str_ok(jentries_of(o@), name@),
{
    match jget(o, name) {
        None => Some(String::from_str(d)),
        Some(Json::Str(s)) => Some(s.clone()),
        Some(_) => None,
    }
}

fn get_req_string(o: &Vec<(String, Json)>, name: &str) -> (r: Option<String>)
    ensures
        r matches Some(s) ==> jf_req_str_ok(jentries_of(o@), name@) && s@ == jf_str(
            jentries_of(o@),
            name@,
            Seq::empty(),
        ),
        r is None ==> !jf_req_str_ok(jentries_of(o@), name@),
{
    match jget(o, name) {
        Some(Json::Str(s)) => Some(s.clone()),
        _ => None,
    }
}

fn get_opt_string(o: &Vec<(String, Json)>, name: &str) -> (r: Option<Option<String>>)
    ensures
        r matches Some(v) ==> jf_opt_str_ok(jentries_of(o@), name@) && v.deep_view()
            == jf_opt_str(jentries_of(o@), name@),
        r is None ==> !jf_opt_str_ok(jentries_of(o@), name@),
{
    match jget(o, name) {
        None => Some(None),
        Some(Json::Null) => Some(None),
        Some(Json::Str(s)) => Some(Some(s.clone())),
        Some(_) => None,
    }
}

fn get_opt_u16(o: &Vec<(String, Json)>, name: &str) -> (r: Option<Option<u16>>)
    ensures
        r matches Some(v) ==> jf_opt_u16_ok(jentries_of(o@), name@) && v == jf_opt_u16(
            jentries_of(o@),
            name@,
        ),
        r is None ==> !jf_opt_u16_ok(jentries_of(o@), name@),
{
    match jget(o, name) {
        None => Some(None),
        Some(Json::Null) => Some(None),
        Some(Json::Int(i)) => {
            if 0 <= *i && *i <= 65535 {
                Some(Some(*i as u16))
            } else {
                None
            }
        },
        Some(_) => None,
    }
}

/// Looking a name up finds the entry at `i` when no earlier entry binds it.
pub proof fn lemma_jlookup_at(e: Seq<(Seq<char>, JVal)>, i: int, name: Seq<char>)
    requires
        0 <= i < e.len(),
        e[i].0 == name,
        forall|k: int| 0 <= k < i ==> (#[trigger] e[k]).0 != name,
    ensures
        jlookup(e, name) == Some(e[i].1),
    decreases i,
{
    if i == 0 {
    } else {
        let t = e.subrange(1, e.len() as int);
        assert(t[i - 1] == e[i]);
        assert forall|k: int| 0 <= k < i - 1 implies (#[trigger] t[k]).0 != name by {
            assert(t[k] == e[k + 1]);
        }
        lemma_jlookup_at(t, i - 1, name);
    }
}

// --- one model of a custom provider ---

pub open spec fn dec_model_ok(v: JVal) -> bool {
    match v {
        JVal::Obj(e) => jf_req_str_ok(e, "name"@) && jf_str_ok(e, "alias"@),
        _ => false,
    }
}

pub open spec fn dec_model(v: JVal) -> AmpOpenAIModelV {
    let e = v->Obj_0;
    AmpOpenAIModelV { name: jf_str(e, "name"@, ""@), alias: jf_str(e, "alias"@, ""@) }
}

pub open spec fn enc_model(m: AmpOpenAIModelV) -> JVal {
    JVal::Obj(seq![("name"@, JVal::Str(m.name)), ("alias"@, JVal::Str(m.alias))])
}

pub proof fn lemma_model_roundtrip(m: AmpOpenAIModelV)
    ensures
        dec_model_ok(enc_model(m)),
        dec_model(enc_model(m)) == m,
{
    reveal_strlit("name");
    reveal_strlit("alias");
    assert("name"@.len() == 4);
    assert("alias"@.len() == 5);
    assert("name"@ != "alias"@);
    let e = enc_model(m)->Obj_0;
    assert(e.len() == 2);
    assert(jlookup(e, "name"@) == Some(JVal::Str(m.name)));
    let t = e.subrange(1, e.len() as int);
    assert(t[0] == e[1]);
    assert(jlookup(t, "alias"@) == Some(JVal::Str(m.alias)));
    assert(jlookup(e, "alias"@) == Some(JVal::Str(m.alias)));
}

fn model_to_json(m: &AmpOpenAIModel) -> (r: Json)
    ensures
        r@ == enc_model(m.deep_view()),
{
    let mut e: Vec<(String, Json)> = Vec::new();
    e.push((String::from_str("name"), Json::Str(m.name.clone())));
    e.push((String::from_str("alias"), Json::Str(m.alias.clone())));
    proof {
        lemma_jentries_of(e@);
        assert(jentries_of(e@)[0] == (e@[0].0@, e@[0].1@));
        assert(jentries_of(e@)[1] == (e@[1].0@, e@[1].1@));
        assert(jentries_of(e@) =~= enc_model(m.deep_view())->Obj_0);
    }
    Json::Obj(e)
}

fn model_from_json(v: &Json) -> (r: Option<AmpOpenAIModel>)
    ensures
        dec_model_ok(v@) ==> (r matches Some(m) && m.deep_view() == dec_model(v@)),
        !dec_model_ok(v@) ==> r is None,
{
    match v {
        Json::Obj(e) => {
            let name = match get_req_string(e, "name") {
                Some(s) => s,
                None => {
                    return None;
                },
            };
            let alias = match get_string(e, "alias", "") {
                Some(s) => s,
                None => {
                    return None;
                },
            };
            Some(AmpOpenAIModel { name, alias })
        },
        _ => None,
    }
}

pub open spec fn arr_models_ok(a: Seq<JVal>) -> bool {
    forall|i: int| 0 <= i < a.len() ==> dec_model_ok(#[trigger] a[i])
}

pub open spec fn arr_models(a: Seq<JVal>) -> Seq<AmpOpenAIModelV> {
    Seq::new(a.len(), |i: int| dec_model(a[i]))
}

pub open spec fn enc_models(s: Seq<AmpOpenAIModelV>) -> JVal {
    JVal::Arr(Seq::new(s.len(), |i: int| enc_model(s[i])))
}

pub proof fn lemma_models_roundtrip(s: Seq<AmpOpenAIModelV>)
    ensures
        enc_models(s) matches JVal::Arr(a) && arr_models_ok(a) && arr_models(a) == s,
{
    let a = enc_models(s)->Arr_0;
    assert forall|i: int| 0 <= i < a.len() implies dec_model_ok(#[trigger] a[i]) by {
        lemma_model_roundtrip(s[i]);
    }
    assert forall|i: int| 0 <= i < a.len() implies arr_models(a)[i] == s[i] by {
        lemma_model_roundtrip(s[i]);
    }
    assert(arr_models(a) =~= s);
}

#[verifier::loop_isolation(false)]
fn models_to_json(v: &Vec<AmpOpenAIModel>) -> (r: Json)
    ensures
        r@ == enc_models(v.deep_view()),
{
    let mut a: Vec<Json> = Vec::new();
    let mut i: usize = 0;
    while i < v.len()
        invariant
            a@.len() == i <= v@.len(),
            forall|k: int| 0 <= k < i ==> a@[k]@ == enc_model(v@[k].deep_view()),
        decreases v@.len() - i,
    {
        a.push(model_to_json(&v[i]));
        i = i + 1;
    }
    proof {
        lemma_jvals_of(a@);
        assert forall|k: int| 0 <= k < a@.len() implies jvals_of(a@)[k] == enc_models(
            v.deep_view(),
        )->Arr_0[k] by {
            assert(jvals_of(a@)[k] == a@[k]@);
        }
        assert(jvals_of(a@) =~= enc_models(v.deep_view())->Arr_0);
    }
    Json::Arr(a)
}

#[verifier::loop_isolation(false)]
fn models_from_json(v: &Json) -> (r: Option<Vec<AmpOpenAIModel>>)
    ensures
        (v@ matches JVal::Arr(a) && arr_models_ok(a)) ==> (r matches Some(ms) && ms.deep_view()
            == arr_models(v@->Arr_0)),
        !(v@ matches JVal::Arr(a) && arr_models_ok(a)) ==> r is None,
{
    match v {
        Json::Arr(items) => {
            proof {
                lemma_jvals_of(items@);
            }
            let ghost a = jvals_of(items@);
            let mut out: Vec<AmpOpenAIModel> = Vec::new();
            let mut i: usize = 0;
            while i < items.len()
                invariant
                    out@.len() == i <= items@.len(),
                    forall|k: int|
                        0 <= k < i ==> dec_model_ok(#[trigger] a[k]) && out@[k].deep_view()
                            == dec_model(a[k]),
                decreases items@.len() - i,
            {
                match model_from_json(&items[i]) {
                    Some(m) => {
                        out.push(m);
                    },
                    None => {
                        proof {
                            assert(!dec_model_ok(a[i as int]));
                        }
                        return None;
                    },
                }
                i = i + 1;
            }
            proof {
                assert(out.deep_view() =~= arr_models(a));
            }
            Some(out)
        },
        _ => None,
    }
}

// --- custom header lists, kept in written order ---

pub open spec fn headers_ok(e: Seq<(Seq<char>, JVal)>) -> bool {
    forall|i: int| 0 <= i < e.len() ==> (#[trigger] e[i]).1 is Str
}

pub open spec fn headers_val(e: Seq<(Seq<char>, JVal)>) -> Seq<(Seq<char>, Seq<char>)> {
    Seq::new(e.len(), |i: int| (e[i].0, e[i].1->Str_0))
}

pub open spec fn enc_headers(h: Seq<(Seq<char>, Seq<char>)>) -> JVal {
    JVal::Obj(Seq::new(h.len(), |i: int| (h[i].0, JVal::Str(h[i].1))))
}

pub proof fn lemma_headers_roundtrip(h: Seq<(Seq<char>, Seq<char>)>)
    ensures
        enc_headers(h) matches JVal::Obj(e) && headers_ok(e) && headers_val(e) == h,
{
    let e = enc_headers(h)->Obj_0;
    assert(headers_val(e) =~= h);
}

#[verifier::loop_isolation(false)]
fn headers_to_json(v: &Vec<(String, String)>) -> (r: Json)
    ensures
        r@ == enc_headers(v.deep_view()),
{
    let mut e: Vec<(String, Json)> = Vec::new();
    let mut i: usize = 0;
    while i < v.len()
        invariant
            e@.len() == i <= v@.len(),
            forall|k: int|
                0 <= k < i ==> (#[trigger] e@[k]).0@ == v@[k].0@ && e@[k].1@ == JVal::Str(
                    v@[k].1@,
                ),
        decreases v@.len() - i,
    {
        e.push((v[i].0.clone(), Json::Str(v[i].1.clone())));
        i = i + 1;
    }
    proof {
        lemma_jentries_of(e@);
        assert forall|k: int| 0 <= k < e@.len() implies jentries_of(e@)[k] == enc_headers(
            v.deep_view(),
        )->Obj_0[k] by {
            assert(jentries_of(e@)[k] == (e@[k].0@, e@[k].1@));
        }
        assert(jentries_of(e@) =~= enc_headers(v.deep_view())->Obj_0);
    }
    Json::Obj(e)
}

#[verifier::loop_isolation(false)]
fn headers_from_json(v: &Json) -> (r: Option<Vec<(String, String)>>)
    ensures
        (v@ matches JVal::Obj(e) && headers_ok(e)) ==> (r matches Some(h) && h.deep_view()
            == headers_val(v@->Obj_0)),
        !(v@ matches JVal::Obj(e) && headers_ok(e)) ==> r is None,
{
    match v {
        Json::Obj(entries) => {
            proof {
                lemma_jentries_of(entries@);
            }
            let ghost e = jentries_of(entries@);
            let mut out: Vec<(String, String)> = Vec::new();
            let mut i: usize = 0;
            while i < entries.len()
                invariant
                    out@.len() == i <= entries@.len(),
                    forall|k: int|
                        0 <= k < i ==> (#[trigger] e[k]).1 is Str && out@[k].0@ == e[k].0
                            && out@[k].1@ == e[k].1->Str_0,
                decreases entries@.len() - i,
            {
                proof {
                    let k0 = entries@[i as int].0@;
                    assert(e[i as int] == (k0, entries@[i as int].1@));
                }
                match &entries[i].1 {
                    Json::Str(s) => {
                        out.push((entries[i].0.clone(), s.clone()));
                    },
                    _ => {
                        return None;
                    },
                }
                i = i + 1;
            }
            proof {
                assert(out.deep_view() =~= headers_val(e));
            }
            Some(out)
        },
        _ => None,
    }
}

// --- plain text lists ---

pub open spec fn strarr_ok(a: Seq<JVal>) -> bool {
    forall|i: int| 0 <= i < a.len() ==> (#[trigger] a[i]) is Str
}

pub open spec fn strarr_val(a: Seq<JVal>) -> Seq<Seq<char>> {
    Seq::new(a.len(), |i: int| a[i]->Str_0)
}

pub open spec fn enc_strarr(s: Seq<Seq<char>>) -> JVal {
    JVal::Arr(Seq::new(s.len(), |i: int| JVal::Str(s[i])))
}

pub proof fn lemma_strarr_roundtrip(s: Seq<Seq<char>>)
    ensures
        enc_strarr(s) matches JVal::Arr(a) && strarr_ok(a) && strarr_val(a) == s,
{
    let a = enc_strarr(s)->Arr_0;
    assert(strarr_val(a) =~= s);
}

#[verifier::loop_isolation(false)]
fn strarr_to_json(v: &Vec<String>) -> (r: Json)
    ensures
        r@ == enc_strarr(v.deep_view()),
{
    let mut a: Vec<Json> = Vec::new();
    let mut i: usize = 0;
    while i < v.len()
        invariant
            a@.len() == i <= v@.len(),
            forall|k: int| 0 <= k < i ==> (#[trigger] a@[k])@ == JVal::Str(v@[k]@),
        decreases v@.len() - i,
    {
        a.push(Json::Str(v[i].clone()));
        i = i + 1;
    }
    proof {
        lemma_jvals_of(a@);
        assert forall|k: int| 0 <= k < a@.len() implies jvals_of(a@)[k] == enc_strarr(
            v.deep_view(),
        )->Arr_0[k] by {
            assert(jvals_of(a@)[k] == a@[k]@);
        }
        assert(jvals_of(a@) =~= enc_strarr(v.deep_view())->Arr_0);
    }
    Json::Arr(a)
}

#[verifier::loop_isolation(false)]
fn strarr_from_json(v: &Json) -> (r: Option<Vec<String>>)
    ensures
        (v@ matches JVal::Arr(a) && strarr_ok(a)) ==> (r matches Some(s) && s.deep_view()
            == strarr_val(v@->Arr_0)),
        !(v@ matches JVal::Arr(a) && strarr_ok(a)) ==> r is None,
{
    match v {
        Json::Arr(items) => {
            proof {
                lemma_jvals_of(items@);
            }
            let ghost a = jvals_of(items@);
            let mut out: Vec<String> = Vec::new();
            let mut i: usize = 0;
            while i < items.len()
                invariant
                    out@.len() == i <= items@.len(),
                    forall|k: int|
                        0 <= k < i ==> (#[trigger] a[k]) is Str && out@[k]@ == a[k]->Str_0,
                decreases items@.len() - i,
            {
                proof {
                    let v0 = items@[i as int]@;
                    assert(a[i as int] == v0);
                }
                match &items[i] {
                    Json::Str(s) => {
                        out.push(s.clone());
                    },
                    _ => {
                        return None;
                    },
                }
                i = i + 1;
            }
            proof {
                assert(out.deep_view() =~= strarr_val(a));
            }
            Some(out)
        },
        _ => None,
    }
}

// --- a model-name mapping with an optional alias ---

pub open spec fn dec_mmap_ok(v: JVal) -> bool {
    match v {
        JVal::Obj(e) => jf_req_str_ok(e, "name"@) && jf_opt_str_ok(e, "alias"@),
        _ => false,
    }
}

pub open spec fn dec_mmap(v: JVal) -> ModelMappingV {
    let e = v->Obj_0;
    ModelMappingV { name: jf_str(e, "name"@, ""@), alias: jf_opt_str(e, "alias"@) }
}

pub open spec fn enc_mmap(m: ModelMappingV) -> JVal {
    JVal::Obj(seq![("name"@, JVal::Str(m.name)), ("alias"@, enc_opt_str(m.alias))])
}

pub proof fn lemma_mmap_roundtrip(m: ModelMappingV)
    ensures
        dec_mmap_ok(enc_mmap(m)),
        dec_mmap(enc_mmap(m)) == m,
{
    reveal_strlit("name");
    reveal_strlit("alias");
    assert("name"@.len() == 4);
    assert("alias"@.len() == 5);
    let e = enc_mmap(m)->Obj_0;
    lemma_jlookup_at(e, 0, "name"@);
    lemma_jlookup_at(e, 1, "alias"@);
}

fn mmap_to_json(m: &ModelMapping) -> (r: Json)
    ensures
        r@ == enc_mmap(m.deep_view()),
{
    let mut e: Vec<(String, Json)> = Vec::new();
    e.push((String::from_str("name"), Json::Str(m.name.clone())));
    let alias_json = match &m.alias {
        Some(a) => Json::Str(a.clone()),
        None => Json::Null,
    };
    e.push((String::from_str("alias"), alias_json));
    proof {
        lemma_jentries_of(e@);
        assert(jentries_of(e@)[0] == (e@[0].0@, e@[0].1@));
        assert(jentries_of(e@)[1] == (e@[1].0@, e@[1].1@));
        assert(jentries_of(e@) =~= enc_mmap(m.deep_view())->Obj_0);
    }
    Json::Obj(e)
}

fn mmap_from_json(v: &Json) -> (r: Option<ModelMapping>)
    ensures
        dec_mmap_ok(v@) ==> (r matches Some(m) && m.deep_view() == dec_mmap(v@)),
        !dec_mmap_ok(v@) ==> r is None,
{
    match v {
        Json::Obj(e) => {
            let name = match get_req_string(e, "name") {
                Some(s) => s,
                None => {
                    return None;
                },
            };
            let alias = match get_opt_string(e, "alias") {
                Some(a) => a,
                None => {
                    return None;
                },
            };
            Some(ModelMapping { name, alias })
        },
        _ => None,
    }
}

pub open spec fn arr_mmaps_ok(a: Seq<JVal>) -> bool {
    forall|i: int| 0 <= i < a.len() ==> dec_mmap_ok(#[trigger] a[i])
}

pub open spec fn arr_mmaps(a: Seq<JVal>) -> Seq<ModelMappingV> {
    Seq::new(a.len(), |i: int| dec_mmap(a[i]))
}

pub open spec fn enc_mmaps(s: Seq<ModelMappingV>) -> JVal {
    JVal::Arr(Seq::new(s.len(), |i: int| enc_mmap(s[i])))
}

pub proof fn lemma_mmaps_roundtrip(s: Seq<ModelMappingV>)
    ensures
        enc_mmaps(s) matches JVal::Arr(a) && arr_mmaps_ok(a) && arr_mmaps(a) == s,
{
    let a = enc_mmaps(s)->Arr_0;
    assert forall|i: int| 0 <= i < a.len() implies dec_mmap_ok(#[trigger] a[i]) by {
        lemma_mmap_roundtrip(s[i]);
    }
    assert forall|i: int| 0 <= i < a.len() implies arr_mmaps(a)[i] == s[i] by {
        lemma_mmap_roundtrip(s[i]);
    }
    assert(arr_mmaps(a) =~= s);
}

#[verifier::loop_isolation(false)]
fn mmaps_to_json(v: &Vec<ModelMapping>) -> (r: Json)
    ensures
        r@ == enc_mmaps(v.deep_view()),
{
    let mut a: Vec<Json> = Vec::new();
    let mut i: usize = 0;
    while i < v.len()
        invariant
            a@.len() == i <= v@.len(),
            forall|k: int| 0 <= k < i ==> (#[trigger] a@[k])@ == enc_mmap(v@[k].deep_view()),
        decreases v@.len() - i,
    {
        a.push(mmap_to_json(&v[i]));
        i = i + 1;
    }
    proof {
        lemma_jvals_of(a@);
        assert forall|k: int| 0 <= k < a@.len() implies jvals_of(a@)[k] == enc_mmaps(
            v.deep_view(),
        )->Arr_0[k] by {
            assert(jvals_of(a@)[k] == a@[k]@);
        }
        assert(jvals_of(a@) =~= enc_mmaps(v.deep_view())->Arr_0);
    }
    Json::Arr(a)
}

#[verifier::loop_isolation(false)]
fn mmaps_from_json(v: &Json) -> (r: Option<Vec<ModelMapping>>)
    ensures
        (v@ matches JVal::Arr(a) && arr_mmaps_ok(a)) ==> (r matches Some(ms) && ms.deep_view()
            == arr_mmaps(v@->Arr_0)),
        !(v@ matches JVal::Arr(a) && arr_mmaps_ok(a)) ==> r is None,
{
    match v {
        Json::Arr(items) => {
            proof {
                lemma_jvals_of(items@);
            }
            let ghost a = jvals_of(items@);
            let mut out: Vec<ModelMapping> = Vec::new();
            let mut i: usize = 0;
            while i < items.len()
                invariant
                    out@.len() == i <= items@.len(),
                    forall|k: int|
                        0 <= k < i ==> dec_mmap_ok(#[trigger] a[k]) && out@[k].deep_view()
                            == dec_mmap(a[k]),
                decreases items@.len() - i,
            {
                match mmap_from_json(&items[i]) {
                    Some(m) => {
                        out.push(m);
                    },
                    None => {
                        proof {
                            assert(!dec_mmap_ok(a[i as int]));
                        }
                        return None;
                    },
                }
                i = i + 1;
            }
            proof {
                assert(out.deep_view() =~= arr_mmaps(a));
            }
            Some(out)
        },
        _ => None,
    }
}

// --- one model-name rewrite rule ---

pub open spec fn dec_rule_ok(v: JVal) -> bool {
    match v {
        JVal::Obj(e) => jf_req_str_ok(e, "from"@) && jf_req_str_ok(e, "to"@) && jf_bool_ok(
            e,
            "enabled"@,
        ),
        _ => false,
    }
}

pub open spec fn dec_rule(v: JVal) -> AmpModelMappingV {
    let e = v->Obj_0;
    AmpModelMappingV {
        from: jf_str(e, "from"@, ""@),
        to: jf_str(e, "to"@, ""@),
        enabled: jf_bool(e, "enabled"@, true),
    }
}

pub open spec fn enc_rule(m: AmpModelMappingV) -> JVal {
    JVal::Obj(
        seq![
            ("from"@, JVal::Str(m.from)),
            ("to"@, JVal::Str(m.to)),
            ("enabled"@, JVal::Bool(m.enabled)),
        ],
    )
}

pub proof fn lemma_rule_roundtrip(m: AmpModelMappingV)
    ensures
        dec_rule_ok(enc_rule(m)),
        dec_rule(enc_rule(m)) == m,
{
    reveal_strlit("from");
    reveal_strlit("to");
    reveal_strlit("enabled");
    assert("from"@.len() == 4);
    assert("to"@.len() == 2);
    assert("enabled"@.len() == 7);
    let e = enc_rule(m)->Obj_0;
    lemma_jlookup_at(e, 0, "from"@);
    lemma_jlookup_at(e, 1, "to"@);
    lemma_jlookup_at(e, 2, "enabled"@);
}

fn rule_to_json(m: &AmpModelMapping) -> (r: Json)
    ensures
        r@ == enc_rule(m.deep_view()),
{
    let mut e: Vec<(String, Json)> = Vec::new();
    e.push((String::from_str("from"), Json::Str(m.from.clone())));
    e.push((String::from_str("to"), Json::Str(m.to.clone())));
    e.push((String::from_str("enabled"), Json::Bool(m.enabled)));
    proof {
        lemma_jentries_of(e@);
        assert(jentries_of(e@)[0] == (e@[0].0@, e@[0].1@));
        assert(jentries_of(e@)[1] == (e@[1].0@, e@[1].1@));
        assert(jentries_of(e@)[2] == (e@[2].0@, e@[2].1@));
        assert(jentries_of(e@) =~= enc_rule(m.deep_view())->Obj_0);
    }
    Json::Obj(e)
}

fn rule_from_json(v: &Json) -> (r: Option<AmpModelMapping>)
    ensures
        dec_rule_ok(v@) ==> (r matches Some(m) && m.deep_view() == dec_rule(v@)),
        !dec_rule_ok(v@) ==> r is None,
{
    match v {
        Json::Obj(e) => {
            let from = match get_req_string(e, "from") {
                Some(s) => s,
                None => {
                    return None;
                },
            };
            let to = match get_req_string(e, "to") {
                Some(s) => s,
                None => {
                    return None;
                },
            };
            let enabled = match get_bool(e, "enabled", true) {
                Some(b) => b,
                None => {
                    return None;
                },
            };
            Some(AmpModelMapping { from, to, enabled })
        },
        _ => None,
    }
}

pub open spec fn arr_rules_ok(a: Seq<JVal>) -> bool {
    forall|i: int| 0 <= i < a.len() ==> dec_rule_ok(#[trigger] a[i])
}

pub open spec fn arr_rules(a: Seq<JVal>) -> Seq<AmpModelMappingV> {
    Seq::new(a.len(), |i: int| dec_rule(a[i]))
}

pub open spec fn enc_rules(s: Seq<AmpModelMappingV>) -> JVal {
    JVal::Arr(Seq::new(s.len(), |i: int| enc_rule(s[i])))
}

pub proof fn lemma_rules_roundtrip(s: Seq<AmpModelMappingV>)
    ensures
        enc_rules(s) matches JVal::Arr(a) && arr_rules_ok(a) && arr_rules(a) == s,
{
    let a = enc_rules(s)->Arr_0;
    assert forall|i: int| 0 <= i < a.len() implies dec_rule_ok(#[trigger] a[i]) by {
        lemma_rule_roundtrip(s[i]);
    }
    assert forall|i: int| 0 <= i < a.len() implies arr_rules(a)[i] == s[i] by {
        lemma_rule_roundtrip(s[i]);
    }
    assert(arr_rules(a) =~= s);
}

#[verifier::loop_isolation(false)]
pub(crate) fn rules_to_json(v: &Vec<AmpModelMapping>) -> (r: Json)
    ensures
        r@ == enc_rules(v.deep_view()),
{
    let mut a: Vec<Json> = Vec::new();
    let mut i: usize = 0;
    while i < v.len()
        invariant
            a@.len() == i <= v@.len(),
            forall|k: int| 0 <= k < i ==> (#[trigger] a@[k])@ == enc_rule(v@[k].deep_view()),
        decreases v@.len() - i,
    {
        a.push(rule_to_json(&v[i]));
        i = i + 1;
    }
    proof {
        lemma_jvals_of(a@);
        assert forall|k: int| 0 <= k < a@.len() implies jvals_of(a@)[k] == enc_rules(
            v.deep_view(),
        )->Arr_0[k] by {
            assert(jvals_of(a@)[k] == a@[k]@);
        }
        assert(jvals_of(a@) =~= enc_rules(v.deep_view())->Arr_0);
    }
    Json::Arr(a)
}

#[verifier::loop_isolation(false)]
fn rules_from_json(v: &Json) -> (r: Option<Vec<AmpModelMapping>>)
    ensures
        (v@ matches JVal::Arr(a) && arr_rules_ok(a)) ==> (r matches Some(ms) && ms.deep_view()
            == arr_rules(v@->Arr_0)),
        !(v@ matches JVal::Arr(a) && arr_rules_ok(a)) ==> r is None,
{
    match v {
        Json::Arr(items) => {
            proof {
                lemma_jvals_of(items@);
            }
            let ghost a = jvals_of(items@);
            let mut out: Vec<AmpModelMapping> = Vec::new();
            let mut i: usize = 0;
            while i < items.len()
                invariant
                    out@.len() == i <= items@.len(),
                    forall|k: int|
                        0 <= k < i ==> dec_rule_ok(#[trigger] a[k]) && out@[k].deep_view()
                            == dec_rule(a[k]),
                decreases items@.len() - i,
            {
                match rule_from_json(&items[i]) {
                    Some(m) => {
                        out.push(m);
                    },
                    None => {
                        proof {
                            assert(!dec_rule_ok(a[i as int]));
                        }
                        return None;
                    },
                }
                i = i + 1;
            }
            proof {
                assert(out.deep_view() =~= arr_rules(a));
            }
            Some(out)
        },
        _ => None,
    }
}

// --- optional structured fields ---

pub open spec fn jf_opt_headers_ok(o: Seq<(Seq<char>, JVal)>, name: Seq<char>) -> bool {
    match jlookup(o, name) {
        None => true,
        Some(JVal::Null) => true,
        Some(JVal::Obj(e)) => headers_ok(e),
        Some(_) => false,
    }
}

pub open spec fn jf_opt_headers(o: Seq<(Seq<char>, JVal)>, name: Seq<char>) -> Option<
    Seq<(Seq<char>, Seq<char>)>,
> {
    match jlookup(o, name) {
        Some(JVal::Obj(e)) => Some(headers_val(e)),
        _ => None,
    }
}

pub open spec fn enc_opt_headers(h: Option<Seq<(Seq<char>, Seq<char>)>>) -> JVal {
    match h {
        Some(x) => enc_headers(x),
        None => JVal::Null,
    }
}

pub open spec fn jf_opt_strarr_ok(o: Seq<(Seq<char>, JVal)>, name: Seq<char>) -> bool {
    match jlookup(o, name) {
        None => true,
        Some(JVal::Null) => true,
        Some(JVal::Arr(a)) => strarr_ok(a),
        Some(_) => false,
    }
}

pub open spec fn jf_opt_strarr(o: Seq<(Seq<char>, JVal)>, name: Seq<char>) -> Option<
    Seq<Seq<char>>,
> {
    match jlookup(o, name) {
        Some(JVal::Arr(a)) => Some(strarr_val(a)),
        _ => None,
    }
}

pub open spec fn enc_opt_strarr(h: Option<Seq<Seq<char>>>) -> JVal {
    match h {
        Some(x) => enc_strarr(x),
        None => JVal::Null,
    }
}

pub open spec fn jf_opt_mmaps_ok(o: Seq<(Seq<char>, JVal)>, name: Seq<char>) -> bool {
    match jlookup(o, name) {
        None => true,
        Some(JVal::Null) => true,
        Some(JVal::Arr(a)) => arr_mmaps_ok(a),
        Some(_) => false,
    }
}

pub open spec fn jf_opt_mmaps(o: Seq<(Seq<char>, JVal)>, name: Seq<char>) -> Option<
    Seq<ModelMappingV>,
> {
    match jlookup(o, name) {
        Some(JVal::Arr(a)) => Some(arr_mmaps(a)),
        _ => None,
    }
}

pub open spec fn enc_opt_mmaps(h: Option<Seq<ModelMappingV>>) -> JVal {
    match h {
        Some(x) => enc_mmaps(x),
        None => JVal::Null,
    }
}

fn get_opt_headers(o: &Vec<(String, Json)>, name: &str) -> (r: Option<
    Option<Vec<(String, String)>>,
>)
    ensures
        r matches Some(v) ==> jf_opt_headers_ok(jentries_of(o@), name@) && v.deep_view()
            == jf_opt_headers(jentries_of(o@), name@),
        r is None ==> !jf_opt_headers_ok(jentries_of(o@), name@),
{
    match jget(o, name) {
        None => Some(None),
        Some(Json::Null) => Some(None),
        Some(x) => {
            if let Json::Obj(_) = x {
                match headers_from_json(x) {
                    Some(h) => Some(Some(h)),
                    None => None,
                }
            } else {
                None
            }
        },
    }
}

fn get_opt_strarr(o: &Vec<(String, Json)>, name: &str) -> (r: Option<Option<Vec<String>>>)
    ensures
        r matches Some(v) ==> jf_opt_strarr_ok(jentries_of(o@), name@) && v.deep_view()
            == jf_opt_strarr(jentries_of(o@), name@),
        r is None ==> !jf_opt_strarr_ok(jentries_of(o@), name@),
{
    match jget(o, name) {
        None => Some(None),
        Some(Json::Null) => Some(None),
        Some(x) => {
            if let Json::Arr(_) = x {
                match strarr_from_json(x) {
                    Some(h) => Some(Some(h)),
                    None => None,
                }
            } else {
                None
            }
        },
    }
}

fn get_opt_mmaps(o: &Vec<(String, Json)>, name: &str) -> (r: Option<Option<Vec<ModelMapping>>>)
    ensures
        r matches Some(v) ==> jf_opt_mmaps_ok(jentries_of(o@), name@) && v.deep_view()
            == jf_opt_mmaps(jentries_of(o@), name@),
        r is None ==> !jf_opt_mmaps_ok(jentries_of(o@), name@),
{
    match jget(o, name) {
        None => Some(None),
        Some(Json::Null) => Some(None),
        Some(x) => {
            if let Json::Arr(_) = x {
                match mmaps_from_json(x) {
                    Some(h) => Some(Some(h)),
                    None => None,
                }
            } else {
                None
            }
        },
    }
}

// --- one custom upstream provider ---

pub open spec fn dec_provider_ok(v: JVal) -> bool {
    match v {
        JVal::Obj(e) => {
            &&& jf_str_ok(e, "id"@)
            &&& jf_req_str_ok(e, "name"@)
            &&& jf_req_str_ok(e, "baseUrl"@)
            &&& jf_req_str_ok(e, "apiKey"@)
            &&& match jlookup(e, "models"@) {
                None => true,
                Some(JVal::Arr(a)) => arr_models_ok(a),
                Some(_) => false,
            }
        },
        _ => false,
    }
}

pub open spec fn dec_provider(v: JVal) -> AmpOpenAIProviderV {
    let e = v->Obj_0;
    AmpOpenAIProviderV {
        id: jf_str(e, "id"@, ""@),
        name: jf_str(e, "name"@, ""@),
        base_url: jf_str(e, "baseUrl"@, ""@),
        api_key: jf_str(e, "apiKey"@, ""@),
        models: match jlookup(e, "models"@) {
            Some(JVal::Arr(a)) => arr_models(a),
            _ => Seq::empty(),
        },
    }
}

pub open spec fn enc_provider(p: AmpOpenAIProviderV) -> JVal {
    JVal::Obj(
        seq![
            ("id"@, JVal::Str(p.id)),
            ("name"@, JVal::Str(p.name)),
            ("baseUrl"@, JVal::Str(p.base_url)),
            ("apiKey"@, JVal::Str(p.api_key)),
            ("models"@, enc_models(p.models)),
        ],
    )
}

pub proof fn lemma_provider_roundtrip(p: AmpOpenAIProviderV)
    ensures
        dec_provider_ok(enc_provider(p)),
        dec_provider(enc_provider(p)) == p,
{
    reveal_strlit("id");
    reveal_strlit("name");
    reveal_strlit("baseUrl");
    reveal_strlit("apiKey");
    reveal_strlit("models");
    assert("id"@.len() == 2);
    assert("name"@.len() == 4);
    assert("baseUrl"@.len() == 7);
    assert("apiKey"@.len() == 6);
    assert("models"@.len() == 6);
    assert("apiKey"@[0] == 'a');
    assert("models"@[0] == 'm');
    let e = enc_provider(p)->Obj_0;
    lemma_jlookup_at(e, 0, "id"@);
    lemma_jlookup_at(e, 1, "name"@);
    lemma_jlookup_at(e, 2, "baseUrl"@);
    lemma_jlookup_at(e, 3, "apiKey"@);
    lemma_jlookup_at(e, 4, "models"@);
    lemma_models_roundtrip(p.models);
}

fn provider_to_json(p: &AmpOpenAIProvider) -> (r: Json)
    ensures
        r@ == enc_provider(p.deep_view()),
{
    let mut e: Vec<(String, Json)> = Vec::new();
    e.push((String::from_str("id"), Json::Str(p.id.clone())));
    e.push((String::from_str("name"), Json::Str(p.name.clone())));
    e.push((String::from_str("baseUrl"), Json::Str(p.base_url.clone())));
    e.push((String::from_str("apiKey"), Json::Str(p.api_key.clone())));
    e.push((String::from_str("models"), models_to_json(&p.models)));
    proof {
        lemma_jentries_of(e@);
        assert(jentries_of(e@)[0] == (e@[0].0@, e@[0].1@));
        assert(jentries_of(e@)[1] == (e@[1].0@, e@[1].1@));
        assert(jentries_of(e@)[2] == (e@[2].0@, e@[2].1@));
        assert(jentries_of(e@)[3] == (e@[3].0@, e@[3].1@));
        assert(jentries_of(e@)[4] == (e@[4].0@, e@[4].1@));
        assert(jentries_of(e@) =~= enc_provider(p.deep_view())->Obj_0);
    }
    Json::Obj(e)
}

fn provider_from_json(v: &Json) -> (r: Option<AmpOpenAIProvider>)
    ensures
        dec_provider_ok(v@) ==> (r matches Some(p) && p.deep_view() == dec_provider(v@)),
        !dec_provider_ok(v@) ==> r is None,
{
    match v {
        Json::Obj(e) => {
            let id = match get_string(e, "id", "") {
                Some(s) => s,
                None => {
                    return None;
                },
            };
            let name = match get_req_string(e, "name") {
                Some(s) => s,
                None => {
                    return None;
                },
            };
            let base_url = match get_req_string(e, "baseUrl") {
                Some(s) => s,
                None => {
                    return None;
                },
            };
            let api_key = match get_req_string(e, "apiKey") {
                Some(s) => s,
                None => {
                    return None;
                },
            };
            let models = match jget(e, "models") {
                None => Vec::new(),
                Some(x) => {
                    if let Json::Arr(_) = x {
                        match models_from_json(x) {
                            Some(m) => m,
                            None => {
                                return None;
                            },
                        }
                    } else {
                        return None;
                    }
                },
            };
            proof {
                assert(models.deep_view() =~= dec_provider(v@).models);
            }
            Some(AmpOpenAIProvider { id, name, base_url, api_key, models })
        },
        _ => None,
    }
}

pub open spec fn arr_providers_ok(a: Seq<JVal>) -> bool {
    forall|i: int| 0 <= i < a.len() ==> dec_provider_ok(#[trigger] a[i])
}

pub open spec fn arr_providers(a: Seq<JVal>) -> Seq<AmpOpenAIProviderV> {
    Seq::new(a.len(), |i: int| dec_provider(a[i]))
}

pub open spec fn enc_providers(s: Seq<AmpOpenAIProviderV>) -> JVal {
    JVal::Arr(Seq::new(s.len(), |i: int| enc_provider(s[i])))
}

pub proof fn lemma_providers_roundtrip(s: Seq<AmpOpenAIProviderV>)
    ensures
        enc_providers(s) matches JVal::Arr(a) && arr_providers_ok(a) && arr_providers(a) == s,
{
    let a = enc_providers(s)->Arr_0;
    assert forall|i: int| 0 <= i < a.len() implies dec_provider_ok(#[trigger] a[i]) by {
        lemma_provider_roundtrip(s[i]);
    }
    assert forall|i: int| 0 <= i < a.len() implies arr_providers(a)[i] == s[i] by {
        lemma_provider_roundtrip(s[i]);
    }
    assert(arr_providers(a) =~= s);
}

#[verifier::loop_isolation(false)]
pub(crate) fn providers_to_json(v: &Vec<AmpOpenAIProvider>) -> (r: Json)
    ensures
        r@ == enc_providers(v.deep_view()),
{
    let mut a: Vec<Json> = Vec::new();
    let mut i: usize = 0;
    while i < v.len()
        invariant
            a@.len() == i <= v@.len(),
            forall|k: int| 0 <= k < i ==> (#[trigger] a@[k])@ == enc_provider(v@[k].deep_view()),
        decreases v@.len() - i,
    {
        a.push(provider_to_json(&v[i]));
        i = i + 1;
    }
    proof {
        lemma_jvals_of(a@);
        assert forall|k: int| 0 <= k < a@.len() implies jvals_of(a@)[k] == enc_providers(
            v.deep_view(),
        )->Arr_0[k] by {
            assert(jvals_of(a@)[k] == a@[k]@);
        }
        assert(jvals_of(a@) =~= enc_providers(v.deep_view())->Arr_0);
    }
    Json::Arr(a)
}

#[verifier::loop_isolation(false)]
fn providers_from_json(v: &Json) -> (r: Option<Vec<AmpOpenAIProvider>>)
    ensures
        (v@ matches JVal::Arr(a) && arr_providers_ok(a)) ==> (r matches Some(ms)
            && ms.deep_view() == arr_providers(v@->Arr_0)),
        !(v@ matches JVal::Arr(a) && arr_providers_ok(a)) ==> r is None,
{
    match v {
        Json::Arr(items) => {
            proof {
                lemma_jvals_of(items@);
            }
            let ghost a = jvals_of(items@);
            let mut out: Vec<AmpOpenAIProvider> = Vec::new();
            let mut i: usize = 0;
            while i < items.len()
                invariant
                    out@.len() == i <= items@.len(),
                    forall|k: int|
                        0 <= k < i ==> dec_provider_ok(#[trigger] a[k]) && out@[k].deep_view()
                            == dec_provider(a[k]),
                decreases items@.len() - i,
            {
                match provider_from_json(&items[i]) {
                    Some(m) => {
                        out.push(m);
                    },
                    None => {
                        proof {
                            assert(!dec_provider_ok(a[i as int]));
                        }
                        return None;
                    },
                }
                i = i + 1;
            }
            proof {
                assert(out.deep_view() =~= arr_providers(a));
            }
            Some(out)
        },
        _ => None,
    }
}

// --- the bridge configuration block ---

pub open spec fn dec_copilot_ok(v: JVal) -> bool {
    match v {
        JVal::Obj(e) => {
            &&& jf_bool_ok(e, "enabled"@)
            &&& jf_int_ok(e, "port"@, 0, 65535)
            &&& jf_str_ok(e, "accountType"@)
            &&& jf_str_ok(e, "githubToken"@)
            &&& jf_opt_u16_ok(e, "rateLimit"@)
            &&& jf_bool_ok(e, "rateLimitWait"@)
        },
        _ => false,
    }
}

pub open spec fn dec_copilot(v: JVal) -> CopilotConfigV {
    let e = v->Obj_0;
    CopilotConfigV {
        enabled: jf_bool(e, "enabled"@, false),
        port: jf_int(e, "port"@, 4141) as u16,
        account_type: jf_str(e, "accountType"@, ""@),
        github_token: jf_str(e, "githubToken"@, ""@),
        rate_limit: jf_opt_u16(e, "rateLimit"@),
        rate_limit_wait: jf_bool(e, "rateLimitWait"@, false),
    }
}

pub open spec fn enc_copilot(c: CopilotConfigV) -> JVal {
    JVal::Obj(
        seq![
            ("enabled"@, JVal::Bool(c.enabled)),
            ("port"@, JVal::Int(c.port as i64)),
            ("accountType"@, JVal::Str(c.account_type)),
            ("githubToken"@, JVal::Str(c.github_token)),
            ("rateLimit"@, enc_opt_u16(c.rate_limit)),
            ("rateLimitWait"@, JVal::Bool(c.rate_limit_wait)),
        ],
    )
}

pub proof fn lemma_copilot_roundtrip(c: CopilotConfigV)
    ensures
        dec_copilot_ok(enc_copilot(c)),
        dec_copilot(enc_copilot(c)) == c,
{
    reveal_strlit("enabled");
    reveal_strlit("port");
    reveal_strlit("accountType");
    reveal_strlit("githubToken");
    reveal_strlit("rateLimit");
    reveal_strlit("rateLimitWait");
    assert("enabled"@.len() == 7);
    assert("port"@.len() == 4);
    assert("accountType"@.len() == 11);
    assert("githubToken"@.len() == 11);
    assert("rateLimit"@.len() == 9);
    assert("rateLimitWait"@.len() == 13);
    assert("accountType"@[0] == 'a');
    assert("githubToken"@[0] == 'g');
    let e = enc_copilot(c)->Obj_0;
    lemma_jlookup_at(e, 0, "enabled"@);
    lemma_jlookup_at(e, 1, "port"@);
    lemma_jlookup_at(e, 2, "accountType"@);
    lemma_jlookup_at(e, 3, "githubToken"@);
    lemma_jlookup_at(e, 4, "rateLimit"@);
    lemma_jlookup_at(e, 5, "rateLimitWait"@);
}

pub(crate) fn copilot_to_json(c: &CopilotConfig) -> (r: Json)
    ensures
        r@ == enc_copilot(c.deep_view()),
{
    let mut e: Vec<(String, Json)> = Vec::new();
    e.push((String::from_str("enabled"), Json::Bool(c.enabled)));
    e.push((String::from_str("port"), Json::Int(c.port as i64)));
    e.push((String::from_str("accountType"), Json::Str(c.account_type.clone())));
    e.push((String::from_str("githubToken"), Json::Str(c.github_token.clone())));
    let rate = match c.rate_limit {
        Some(x) => Json::Int(x as i64),
        None => Json::Null,
    };
    e.push((String::from_str("rateLimit"), rate));
    e.push((String::from_str("rateLimitWait"), Json::Bool(c.rate_limit_wait)));
    proof {
        lemma_jentries_of(e@);
        assert(jentries_of(e@)[0] == (e@[0].0@, e@[0].1@));
        assert(jentries_of(e@)[1] == (e@[1].0@, e@[1].1@));
        assert(jentries_of(e@)[2] == (e@[2].0@, e@[2].1@));
        assert(jentries_of(e@)[3] == (e@[3].0@, e@[3].1@));
        assert(jentries_of(e@)[4] == (e@[4].0@, e@[4].1@));
        assert(jentries_of(e@)[5] == (e@[5].0@, e@[5].1@));
        assert(jentries_of(e@) =~= enc_copilot(c.deep_view())->Obj_0);
    }
    Json::Obj(e)
}

fn copilot_from_json(v: &Json) -> (r: Option<CopilotConfig>)
    ensures
        dec_copilot_ok(v@) ==> (r matches Some(c) && c.deep_view() == dec_copilot(v@)),
        !dec_copilot_ok(v@) ==> r is None,
{
    match v {
        Json::Obj(e) => {
            let enabled = match get_bool(e, "enabled", false) {
                Some(b) => b,
                None => {
                    return None;
                },
            };
            let port = match get_int(e, "port", 0, 65535, 4141) {
                Some(i) => i as u16,
                None => {
                    return None;
                },
            };
            let account_type = match get_string(e, "accountType", "") {
                Some(s) => s,
                None => {
                    return None;
                },
            };
            let github_token = match get_string(e, "githubToken", "") {
                Some(s) => s,
                None => {
                    return None;
                },
            };
            let rate_limit = match get_opt_u16(e, "rateLimit") {
                Some(x) => x,
                None => {
                    return None;
                },
            };
            let rate_limit_wait = match get_bool(e, "rateLimitWait", false) {
                Some(b) => b,
                None => {
                    return None;
                },
            };
            Some(
                CopilotConfig {
                    enabled,
                    port,
                    account_type,
                    github_token,
                    rate_limit,
                    rate_limit_wait,
                },
            )
        },
        _ => None,
    }
}

// --- per-provider credential entries ---

pub open spec fn dec_claude_ok(v: JVal) -> bool {
    match v {
        JVal::Obj(e) => {
            &&& jf_req_str_ok(e, "apiKey"@)
            &&& jf_opt_str_ok(e, "baseUrl"@)
            &&& jf_opt_str_ok(e, "proxyUrl"@)
            &&& jf_opt_headers_ok(e, "headers"@)
            &&& jf_opt_mmaps_ok(e, "models"@)
            &&& jf_opt_strarr_ok(e, "excludedModels"@)
        },
        _ => false,
    }
}

pub open spec fn dec_claude(v: JVal) -> ClaudeApiKeyV {
    let e = v->Obj_0;
    ClaudeApiKeyV {
        api_key: jf_str(e, "apiKey"@, ""@),
        base_url: jf_opt_str(e, "baseUrl"@),
        proxy_url: jf_opt_str(e, "proxyUrl"@),
        headers: jf_opt_headers(e, "headers"@),
        models: jf_opt_mmaps(e, "models"@),
        excluded_models: jf_opt_strarr(e, "excludedModels"@),
    }
}

pub open spec fn enc_claude(k: ClaudeApiKeyV) -> JVal {
    JVal::Obj(
        seq![
            ("apiKey"@, JVal::Str(k.api_key)),
            ("baseUrl"@, enc_opt_str(k.base_url)),
            ("proxyUrl"@, enc_opt_str(k.proxy_url)),
            ("headers"@, enc_opt_headers(k.headers)),
            ("models"@, enc_opt_mmaps(k.models)),
            ("excludedModels"@, enc_opt_strarr(k.excluded_models)),
        ],
    )
}

pub proof fn lemma_claude_roundtrip(k: ClaudeApiKeyV)
    ensures
        dec_claude_ok(enc_claude(k)),
        dec_claude(enc_claude(k)) == k,
{
    reveal_strlit("apiKey");
    reveal_strlit("baseUrl");
    reveal_strlit("proxyUrl");
    reveal_strlit("headers");
    reveal_strlit("models");
    reveal_strlit("excludedModels");
    assert("apiKey"@.len() == 6);
    assert("baseUrl"@.len() == 7);
    assert("proxyUrl"@.len() == 8);
    assert("headers"@.len() == 7);
    assert("models"@.len() == 6);
    assert("excludedModels"@.len() == 14);
    assert("apiKey"@[0] == 'a');
    assert("models"@[0] == 'm');
    assert("baseUrl"@[0] == 'b');
    assert("headers"@[0] == 'h');
    let e = enc_claude(k)->Obj_0;
    lemma_jlookup_at(e, 0, "apiKey"@);
    lemma_jlookup_at(e, 1, "baseUrl"@);
    lemma_jlookup_at(e, 2, "proxyUrl"@);
    lemma_jlookup_at(e, 3, "headers"@);
    lemma_jlookup_at(e, 4, "models"@);
    lemma_jlookup_at(e, 5, "excludedModels"@);
    match k.headers {
        Some(h) => lemma_headers_roundtrip(h),
        None => {},
    }
    match k.models {
        Some(m) => lemma_mmaps_roundtrip(m),
        None => {},
    }
    match k.excluded_models {
        Some(x) => lemma_strarr_roundtrip(x),
        None => {},
    }
}

fn claude_to_json(k: &ClaudeApiKey) -> (r: Json)
    ensures
        r@ == enc_claude(k.deep_view()),
{
    let mut e: Vec<(String, Json)> = Vec::new();
    e.push((String::from_str("apiKey"), Json::Str(k.api_key.clone())));
    let base_url = match &k.base_url {
        Some(s) => Json::Str(s.clone()),
        None => Json::Null,
    };
    e.push((String::from_str("baseUrl"), base_url));
    let proxy_url = match &k.proxy_url {
        Some(s) => Json::Str(s.clone()),
        None => Json::Null,
    };
    e.push((String::from_str("proxyUrl"), proxy_url));
    let headers = match &k.headers {
        Some(h) => headers_to_json(h),
        None => Json::Null,
    };
    e.push((String::from_str("headers"), headers));
    let models = match &k.models {
        Some(m) => mmaps_to_json(m),
        None => Json::Null,
    };
    e.push((String::from_str("models"), models));
    let excluded = match &k.excluded_models {
        Some(x) => strarr_to_json(x),
        None => Json::Null,
    };
    e.push((String::from_str("excludedModels"), excluded));
    proof {
        lemma_jentries_of(e@);
        assert(jentries_of(e@)[0] == (e@[0].0@, e@[0].1@));
        assert(jentries_of(e@)[1] == (e@[1].0@, e@[1].1@));
        assert(jentries_of(e@)[2] == (e@[2].0@, e@[2].1@));
        assert(jentries_of(e@)[3] == (e@[3].0@, e@[3].1@));
        assert(jentries_of(e@)[4] == (e@[4].0@, e@[4].1@));
        assert(jentries_of(e@)[5] == (e@[5].0@, e@[5].1@));
        assert(jentries_of(e@) =~= enc_claude(k.deep_view())->Obj_0);
    }
    Json::Obj(e)
}

fn claude_from_json(v: &Json) -> (r: Option<ClaudeApiKey>)
    ensures
        dec_claude_ok(v@) ==> (r matches Some(k) && k.deep_view() == dec_claude(v@)),
        !dec_claude_ok(v@) ==> r is None,
{
    match v {
        Json::Obj(e) => {
            let api_key = match get_req_string(e, "apiKey") {
                Some(s) => s,
                None => {
                    return None;
                },
            };
            let base_url = match get_opt_string(e, "baseUrl") {
                Some(x) => x,
                None => {
                    return None;
                },
            };
            let proxy_url = match get_opt_string(e, "proxyUrl") {
                Some(x) => x,
                None => {
                    return None;
                },
            };
            let headers = match get_opt_headers(e, "headers") {
                Some(x) => x,
                None => {
                    return None;
                },
            };
            let models = match get_opt_mmaps(e, "models") {
                Some(x) => x,
                None => {
                    return None;
                },
            };
            let excluded_models = match get_opt_strarr(e, "excludedModels") {
                Some(x) => x,
                None => {
                    return None;
                },
            };
            Some(ClaudeApiKey { api_key, base_url, proxy_url, headers, models, excluded_models })
        },
        _ => None,
    }
}

pub open spec fn dec_gemini_ok(v: JVal) -> bool {
    match v {
        JVal::Obj(e) => {
            &&& jf_req_str_ok(e, "apiKey"@)
            &&& jf_opt_str_ok(e, "baseUrl"@)
            &&& jf_opt_str_ok(e, "proxyUrl"@)
            &&& jf_opt_headers_ok(e, "headers"@)
            &&& jf_opt_strarr_ok(e, "excludedModels"@)
        },
        _ => false,
    }
}

pub open spec fn dec_gemini(v: JVal) -> GeminiApiKeyV {
    let e = v->Obj_0;
    GeminiApiKeyV {
        api_key: jf_str(e, "apiKey"@, ""@),
        base_url: jf_opt_str(e, "baseUrl"@),
        proxy_url: jf_opt_str(e, "proxyUrl"@),
        headers: jf_opt_headers(e, "headers"@),
        excluded_models: jf_opt_strarr(e, "excludedModels"@),
    }
}

pub open spec fn enc_gemini(k: GeminiApiKeyV) -> JVal {
    JVal::Obj(
        seq![
            ("apiKey"@, JVal::Str(k.api_key)),
            ("baseUrl"@, enc_opt_str(k.base_url)),
            ("proxyUrl"@, enc_opt_str(k.proxy_url)),
            ("headers"@, enc_opt_headers(k.headers)),
            ("excludedModels"@, enc_opt_strarr(k.excluded_models)),
        ],
    )
}

pub proof fn lemma_gemini_roundtrip(k: GeminiApiKeyV)
    ensures
        dec_gemini_ok(enc_gemini(k)),
        dec_gemini(enc_gemini(k)) == k,
{
    reveal_strlit("apiKey");
    reveal_strlit("baseUrl");
    reveal_strlit("proxyUrl");
    reveal_strlit("headers");
    reveal_strlit("excludedModels");
    assert("apiKey"@.len() == 6);
    assert("baseUrl"@.len() == 7);
    assert("proxyUrl"@.len() == 8);
    assert("headers"@.len() == 7);
    assert("excludedModels"@.len() == 14);
    assert("baseUrl"@[0] == 'b');
    assert("headers"@[0] == 'h');
    let e = enc_gemini(k)->Obj_0;
    lemma_jlookup_at(e, 0, "apiKey"@);
    lemma_jlookup_at(e, 1, "baseUrl"@);
    lemma_jlookup_at(e, 2, "proxyUrl"@);
    lemma_jlookup_at(e, 3, "headers"@);
    lemma_jlookup_at(e, 4, "excludedModels"@);
    match k.headers {
        Some(h) => lemma_headers_roundtrip(h),
        None => {},
    }
    match k.excluded_models {
        Some(x) => lemma_strarr_roundtrip(x),
        None => {},
    }
}

fn gemini_to_json(k: &GeminiApiKey) -> (r: Json)
    ensures
        r@ == enc_gemini(k.deep_view()),
{
    let mut e: Vec<(String, Json)> = Vec::new();
    e.push((String::from_str("apiKey"), Json::Str(k.api_key.clone())));
    let base_url = match &k.base_url {
        Some(s) => Json::Str(s.clone()),
        None => Json::Null,
    };
    e.push((String::from_str("baseUrl"), base_url));
    let proxy_url = match &k.proxy_url {
        Some(s) => Json::Str(s.clone()),
        None => Json::Null,
    };
    e.push((String::from_str("proxyUrl"), proxy_url));
    let headers = match &k.headers {
        Some(h) => headers_to_json(h),
        None => Json::Null,
    };
    e.push((String::from_str("headers"), headers));
    let excluded = match &k.excluded_models {
        Some(x) => strarr_to_json(x),
        None => Json::Null,
    };
    e.push((String::from_str("excludedModels"), excluded));
    proof {
        lemma_jentries_of(e@);
        assert(jentries_of(e@)[0] == (e@[0].0@, e@[0].1@));
        assert(jentries_of(e@)[1] == (e@[1].0@, e@[1].1@));
        assert(jentries_of(e@)[2] == (e@[2].0@, e@[2].1@));
        assert(jentries_of(e@)[3] == (e@[3].0@, e@[3].1@));
        assert(jentries_of(e@)[4] == (e@[4].0@, e@[4].1@));
        assert(jentries_of(e@) =~= enc_gemini(k.deep_view())->Obj_0);
    }
    Json::Obj(e)
}

fn gemini_from_json(v: &Json) -> (r: Option<GeminiApiKey>)
    ensures
        dec_gemini_ok(v@) ==> (r matches Some(k) && k.deep_view() == dec_gemini(v@)),
        !dec_gemini_ok(v@) ==> r is None,
{
    match v {
        Json::Obj(e) => {
            let api_key = match get_req_string(e, "apiKey") {
                Some(s) => s,
                None => {
                    return None;
                },
            };
            let base_url = match get_opt_string(e, "baseUrl") {
                Some(x) => x,
                None => {
                    return None;
                },
            };
            let proxy_url = match get_opt_string(e, "proxyUrl") {
                Some(x) => x,
                None => {
                    return None;
                },
            };
            let headers = match get_opt_headers(e, "headers") {
                Some(x) => x,
                None => {
                    return None;
                },
            };
            let excluded_models = match get_opt_strarr(e, "excludedModels") {
                Some(x) => x,
                None => {
                    return None;
                },
            };
            Some(GeminiApiKey { api_key, base_url, proxy_url, headers, excluded_models })
        },
        _ => None,
    }
}

pub open spec fn dec_codex_ok(v: JVal) -> bool {
    match v {
        JVal::Obj(e) => {
            &&& jf_req_str_ok(e, "apiKey"@)
            &&& jf_opt_str_ok(e, "baseUrl"@)
            &&& jf_opt_str_ok(e, "proxyUrl"@)
            &&& jf_opt_headers_ok(e, "headers"@)
        },
        _ => false,
    }
}

pub open spec fn dec_codex(v: JVal) -> CodexApiKeyV {
    let e = v->Obj_0;
    CodexApiKeyV {
        api_key: jf_str(e, "apiKey"@, ""@),
        base_url: jf_opt_str(e, "baseUrl"@),
        proxy_url: jf_opt_str(e, "proxyUrl"@),
        headers: jf_opt_headers(e, "headers"@),
    }
}

pub open spec fn enc_codex(k: CodexApiKeyV) -> JVal {
    JVal::Obj(
        seq![
            ("apiKey"@, JVal::Str(k.api_key)),
            ("baseUrl"@, enc_opt_str(k.base_url)),
            ("proxyUrl"@, enc_opt_str(k.proxy_url)),
            ("headers"@, enc_opt_headers(k.headers)),
        ],
    )
}

pub proof fn lemma_codex_roundtrip(k: CodexApiKeyV)
    ensures
        dec_codex_ok(enc_codex(k)),
        dec_codex(enc_codex(k)) == k,
{
    reveal_strlit("apiKey");
    reveal_strlit("baseUrl");
    reveal_strlit("proxyUrl");
    reveal_strlit("headers");
    assert("apiKey"@.len() == 6);
    assert("baseUrl"@.len() == 7);
    assert("proxyUrl"@.len() == 8);
    assert("headers"@.len() == 7);
    assert("baseUrl"@[0] == 'b');
    assert("headers"@[0] == 'h');
    let e = enc_codex(k)->Obj_0;
    lemma_jlookup_at(e, 0, "apiKey"@);
    lemma_jlookup_at(e, 1, "baseUrl"@);
    lemma_jlookup_at(e, 2, "proxyUrl"@);
    lemma_jlookup_at(e, 3, "headers"@);
    match k.headers {
        Some(h) => lemma_headers_roundtrip(h),
        None => {},
    }
}

fn codex_to_json(k: &CodexApiKey) -> (r: Json)
    ensures
        r@ == enc_codex(k.deep_view()),
{
    let mut e: Vec<(String, Json)> = Vec::new();
    e.push((String::from_str("apiKey"), Json::Str(k.api_key.clone())));
    let base_url = match &k.base_url {
        Some(s) => Json::Str(s.clone()),
        None => Json::Null,
    };
    e.push((String::from_str("baseUrl"), base_url));
    let proxy_url = match &k.proxy_url {
        Some(s) => Json::Str(s.clone()),
        None => Json::Null,
    };
    e.push((String::from_str("proxyUrl"), proxy_url));
    let headers = match &k.headers {
        Some(h) => headers_to_json(h),
        None => Json::Null,
    };
    e.push((String::from_str("headers"), headers));
    proof {
        lemma_jentries_of(e@);
        assert(jentries_of(e@)[0] == (e@[0].0@, e@[0].1@));
        assert(jentries_of(e@)[1] == (e@[1].0@, e@[1].1@));
        assert(jentries_of(e@)[2] == (e@[2].0@, e@[2].1@));
        assert(jentries_of(e@)[3] == (e@[3].0@, e@[3].1@));
        assert(jentries_of(e@) =~= enc_codex(k.deep_view())->Obj_0);
    }
    Json::Obj(e)
}

fn codex_from_json(v: &Json) -> (r: Option<CodexApiKey>)
    ensures
        dec_codex_ok(v@) ==> (r matches Some(k) && k.deep_view() == dec_codex(v@)),
        !dec_codex_ok(v@) ==> r is None,
{
    match v {
        Json::Obj(e) => {
            let api_key = match get_req_string(e, "apiKey") {
                Some(s) => s,
                None => {
                    return None;
                },
            };
            let base_url = match get_opt_string(e, "baseUrl") {
                Some(x) => x,
                None => {
                    return None;
                },
            };
            let proxy_url = match get_opt_string(e, "proxyUrl") {
                Some(x) => x,
                None => {
                    return None;
                },
            };
            let headers = match get_opt_headers(e, "headers") {
                Some(x) => x,
                None => {
                    return None;
                },
            };
            Some(CodexApiKey { api_key, base_url, proxy_url, headers })
        },
        _ => None,
    }
}

// --- arrays of credential entries ---

pub open spec fn arr_claudes_ok(a: Seq<JVal>) -> bool {
    forall|i: int| 0 <= i < a.len() ==> dec_claude_ok(#[trigger] a[i])
}

pub open spec fn arr_claudes(a: Seq<JVal>) -> Seq<ClaudeApiKeyV> {
    Seq::new(a.len(), |i: int| dec_claude(a[i]))
}

pub open spec fn enc_claudes(s: Seq<ClaudeApiKeyV>) -> JVal {
    JVal::Arr(Seq::new(s.len(), |i: int| enc_claude(s[i])))
}

pub proof fn lemma_claudes_roundtrip(s: Seq<ClaudeApiKeyV>)
    ensures
        enc_claudes(s) matches JVal::Arr(a) && arr_claudes_ok(a) && arr_claudes(a) == s,
{
    let a = enc_claudes(s)->Arr_0;
    assert forall|i: int| 0 <= i < a.len() implies dec_claude_ok(#[trigger] a[i]) by {
        lemma_claude_roundtrip(s[i]);
    }
    assert forall|i: int| 0 <= i < a.len() implies arr_claudes(a)[i] == s[i] by {
        lemma_claude_roundtrip(s[i]);
    }
    assert(arr_claudes(a) =~= s);
}

#[verifier::loop_isolation(false)]
pub(crate) fn claudes_to_json(v: &Vec<ClaudeApiKey>) -> (r: Json)
    ensures
        r@ == enc_claudes(v.deep_view()),
{
    let mut a: Vec<Json> = Vec::new();
    let mut i: usize = 0;
    while i < v.len()
        invariant
            a@.len() == i <= v@.len(),
            forall|k: int| 0 <= k < i ==> (#[trigger] a@[k])@ == enc_claude(v@[k].deep_view()),
        decreases v@.len() - i,
    {
        a.push(claude_to_json(&v[i]));
        i = i + 1;
    }
    proof {
        lemma_jvals_of(a@);
        assert forall|k: int| 0 <= k < a@.len() implies jvals_of(a@)[k] == enc_claudes(
            v.deep_view(),
        )->Arr_0[k] by {
            assert(jvals_of(a@)[k] == a@[k]@);
        }
        assert(jvals_of(a@) =~= enc_claudes(v.deep_view())->Arr_0);
    }
    Json::Arr(a)
}

#[verifier::loop_isolation(false)]
fn claudes_from_json(v: &Json) -> (r: Option<Vec<ClaudeApiKey>>)
    ensures
        (v@ matches JVal::Arr(a) && arr_claudes_ok(a)) ==> (r matches Some(ms) && ms.deep_view()
            == arr_claudes(v@->Arr_0)),
        !(v@ matches JVal::Arr(a) && arr_claudes_ok(a)) ==> r is None,
{
    match v {
        Json::Arr(items) => {
            proof {
                lemma_jvals_of(items@);
            }
            let ghost a = jvals_of(items@);
            let mut out: Vec<ClaudeApiKey> = Vec::new();
            let mut i: usize = 0;
            while i < items.len()
                invariant
                    out@.len() == i <= items@.len(),
                    forall|k: int|
                        0 <= k < i ==> dec_claude_ok(#[trigger] a[k]) && out@[k].deep_view()
                            == dec_claude(a[k]),
                decreases items@.len() - i,
            {
                match claude_from_json(&items[i]) {
                    Some(m) => {
                        out.push(m);
                    },
                    None => {
                        proof {
                            assert(!dec_claude_ok(a[i as int]));
                        }
                        return None;
                    },
                }
                i = i + 1;
            }
            proof {
                assert(out.deep_view() =~= arr_claudes(a));
            }
            Some(out)
        },
        _ => None,
    }
}

pub open spec fn arr_geminis_ok(a: Seq<JVal>) -> bool {
    forall|i: int| 0 <= i < a.len() ==> dec_gemini_ok(#[trigger] a[i])
}

pub open spec fn arr_geminis(a: Seq<JVal>) -> Seq<GeminiApiKeyV> {
    Seq::new(a.len(), |i: int| dec_gemini(a[i]))
}

pub open spec fn enc_geminis(s: Seq<GeminiApiKeyV>) -> JVal {
    JVal::Arr(Seq::new(s.len(), |i: int| enc_gemini(s[i])))
}

pub proof fn lemma_geminis_roundtrip(s: Seq<GeminiApiKeyV>)
    ensures
        enc_geminis(s) matches JVal::Arr(a) && arr_geminis_ok(a) && arr_geminis(a) == s,
{
    let a = enc_geminis(s)->Arr_0;
    assert forall|i: int| 0 <= i < a.len() implies dec_gemini_ok(#[trigger] a[i]) by {
        lemma_gemini_roundtrip(s[i]);
    }
    assert forall|i: int| 0 <= i < a.len() implies arr_geminis(a)[i] == s[i] by {
        lemma_gemini_roundtrip(s[i]);
    }
    assert(arr_geminis(a) =~= s);
}

#[verifier::loop_isolation(false)]
pub(crate) fn geminis_to_json(v: &Vec<GeminiApiKey>) -> (r: Json)
    ensures
        r@ == enc_geminis(v.deep_view()),
{
    let mut a: Vec<Json> = Vec::new();
    let mut i: usize = 0;
    while i < v.len()
        invariant
            a@.len() == i <= v@.len(),
            forall|k: int| 0 <= k < i ==> (#[trigger] a@[k])@ == enc_gemini(v@[k].deep_view()),
        decreases v@.len() - i,
    {
        a.push(gemini_to_json(&v[i]));
        i = i + 1;
    }
    proof {
        lemma_jvals_of(a@);
        assert forall|k: int| 0 <= k < a@.len() implies jvals_of(a@)[k] == enc_geminis(
            v.deep_view(),
        )->Arr_0[k] by {
            assert(jvals_of(a@)[k] == a@[k]@);
        }
        assert(jvals_of(a@) =~= enc_geminis(v.deep_view())->Arr_0);
    }
    Json::Arr(a)
}

#[verifier::loop_isolation(false)]
fn geminis_from_json(v: &Json) -> (r: Option<Vec<GeminiApiKey>>)
    ensures
        (v@ matches JVal::Arr(a) && arr_geminis_ok(a)) ==> (r matches Some(ms) && ms.deep_view()
            == arr_geminis(v@->Arr_0)),
        !(v@ matches JVal::Arr(a) && arr_geminis_ok(a)) ==> r is None,
{
    match v {
        Json::Arr(items) => {
            proof {
                lemma_jvals_of(items@);
            }
            let ghost a = jvals_of(items@);
            let mut out: Vec<GeminiApiKey> = Vec::new();
            let mut i: usize = 0;
            while i < items.len()
                invariant
                    out@.len() == i <= items@.len(),
                    forall|k: int|
                        0 <= k < i ==> dec_gemini_ok(#[trigger] a[k]) && out@[k].deep_view()
                            == dec_gemini(a[k]),
                decreases items@.len() - i,
            {
                match gemini_from_json(&items[i]) {
                    Some(m) => {
                        out.push(m);
                    },
                    None => {
                        proof {
                            assert(!dec_gemini_ok(a[i as int]));
                        }
                        return None;
                    },
                }
                i = i + 1;
            }
            proof {
                assert(out.deep_view() =~= arr_geminis(a));
            }
            Some(out)
        },
        _ => None,
    }
}

pub open spec fn arr_codexes_ok(a: Seq<JVal>) -> bool {
    forall|i: int| 0 <= i < a.len() ==> dec_codex_ok(#[trigger] a[i])
}

pub open spec fn arr_codexes(a: Seq<JVal>) -> Seq<CodexApiKeyV> {
    Seq::new(a.len(), |i: int| dec_codex(a[i]))
}

pub open spec fn enc_codexes(s: Seq<CodexApiKeyV>) -> JVal {
    JVal::Arr(Seq::new(s.len(), |i: int| enc_codex(s[i])))
}

pub proof fn lemma_codexes_roundtrip(s: Seq<CodexApiKeyV>)
    ensures
        enc_codexes(s) matches JVal::Arr(a) && arr_codexes_ok(a) && arr_codexes(a) == s,
{
    let a = enc_codexes(s)->Arr_0;
    assert forall|i: int| 0 <= i < a.len() implies dec_codex_ok(#[trigger] a[i]) by {
        lemma_codex_roundtrip(s[i]);
    }
    assert forall|i: int| 0 <= i < a.len() implies arr_codexes(a)[i] == s[i] by {
        lemma_codex_roundtrip(s[i]);
    }
    assert(arr_codexes(a) =~= s);
}

#[verifier::loop_isolation(false)]
pub(crate) fn codexes_to_json(v: &Vec<CodexApiKey>) -> (r: Json)
    ensures
        r@ == enc_codexes(v.deep_view()),
{
    let mut a: Vec<Json> = Vec::new();
    let mut i: usize = 0;
    while i < v.len()
        invariant
            a@.len() == i <= v@.len(),
            forall|k: int| 0 <= k < i ==> (#[trigger] a@[k])@ == enc_codex(v@[k].deep_view()),
        decreases v@.len() - i,
    {
        a.push(codex_to_json(&v[i]));
        i = i + 1;
    }
    proof {
        lemma_jvals_of(a@);
        assert forall|k: int| 0 <= k < a@.len() implies jvals_of(a@)[k] == enc_codexes(
            v.deep_view(),
        )->Arr_0[k] by {
            assert(jvals_of(a@)[k] == a@[k]@);
        }
        assert(jvals_of(a@) =~= enc_codexes(v.deep_view())->Arr_0);
    }
    Json::Arr(a)
}

#[verifier::loop_isolation(false)]
fn codexes_from_json(v: &Json) -> (r: Option<Vec<CodexApiKey>>)
    ensures
        (v@ matches JVal::Arr(a) && arr_codexes_ok(a)) ==> (r matches Some(ms) && ms.deep_view()
            == arr_codexes(v@->Arr_0)),
        !(v@ matches JVal::Arr(a) && arr_codexes_ok(a)) ==> r is None,
{
    match v {
        Json::Arr(items) => {
            proof {
                lemma_jvals_of(items@);
            }
            let ghost a = jvals_of(items@);
            let mut out: Vec<CodexApiKey> = Vec::new();
            let mut i: usize = 0;
            while i < items.len()
                invariant
                    out@.len() == i <= items@.len(),
                    forall|k: int|
                        0 <= k < i ==> dec_codex_ok(#[trigger] a[k]) && out@[k].deep_view()
                            == dec_codex(a[k]),
                decreases items@.len() - i,
            {
                match codex_from_json(&items[i]) {
                    Some(m) => {
                        out.push(m);
                    },
                    None => {
                        proof {
                            assert(!dec_codex_ok(a[i as int]));
                        }
                        return None;
                    },
                }
                i = i + 1;
            }
            proof {
                assert(out.deep_view() =~= arr_codexes(a));
            }
            Some(out)
        },
        _ => None,
    }
}

// --- the whole document ---

/// Whether a JSON value decodes to a configuration document: it must be an
/// object, the fields the schema requires must be present and well-typed,
/// and every present field must be well-typed. Absent defaulted fields are
/// fine: the schema is additive-only.
pub open spec fn cfg_dec_ok(j: JVal) -> bool {
    match j {
        JVal::Obj(e) => {
            &&& jf_req_int_ok(e, "port"@, 0, 65535)
            &&& jf_req_bool_ok(e, "autoStart"@)
            &&& jf_req_bool_ok(e, "launchAtLogin"@)
            &&& jf_bool_ok(e, "debug"@)
            &&& jf_str_ok(e, "proxyUrl"@)
            &&& jf_int_ok(e, "requestRetry"@, 0, 65535)
            &&& jf_bool_ok(e, "quotaSwitchProject"@)
            &&& jf_bool_ok(e, "quotaSwitchPreviewModel"@)
            &&& jf_bool_ok(e, "usageStatsEnabled"@)
            &&& jf_bool_ok(e, "requestLogging"@)
            &&& jf_bool_ok(e, "loggingToFile"@)
            &&& jf_int_ok(e, "logsMaxTotalSizeMb"@, 0, 0xffff_ffff)
            &&& jf_int_ok(e, "configVersion"@, 0, 255)
            &&& jf_str_ok(e, "ampApiKey"@)
            &&& match jlookup(e, "ampModelMappings"@) {
                None => true,
                Some(JVal::Arr(a)) => arr_rules_ok(a),
                Some(_) => false,
            }
            &&& match jlookup(e, "ampOpenaiProvider"@) {
                None => true,
                Some(JVal::Null) => true,
                Some(v) => dec_provider_ok(v),
            }
            &&& match jlookup(e, "ampOpenaiProviders"@) {
                None => true,
                Some(JVal::Arr(a)) => arr_providers_ok(a),
                Some(_) => false,
            }
            &&& jf_str_ok(e, "ampRoutingMode"@)
            &&& match jlookup(e, "copilot"@) {
                None => true,
                Some(v) => dec_copilot_ok(v),
            }
            &&& jf_bool_ok(e, "forceModelMappings"@)
            &&& match jlookup(e, "claudeApiKeys"@) {
                None => true,
                Some(JVal::Arr(a)) => arr_claudes_ok(a),
                Some(_) => false,
            }
            &&& match jlookup(e, "geminiApiKeys"@) {
                None => true,
                Some(JVal::Arr(a)) => arr_geminis_ok(a),
                Some(_) => false,
            }
            &&& match jlookup(e, "codexApiKeys"@) {
                None => true,
                Some(JVal::Arr(a)) => arr_codexes_ok(a),
                Some(_) => false,
            }
            &&& jf_str_ok(e, "thinkingBudgetMode"@)
            &&& jf_int_ok(e, "thinkingBudgetCustom"@, 0, 0xffff_ffff)
            &&& jf_str_ok(e, "reasoningEffortLevel"@)
            &&& jf_bool_ok(e, "closeToTray"@)
            &&& jf_int_ok(e, "maxRetryInterval"@, -0x8000_0000, 0x7fff_ffff)
            &&& jf_str_ok(e, "proxyApiKey"@)
        },
        _ => false,
    }
}

/// The document a well-formed JSON value decodes to, with every absent
/// defaulted field at the value the schema gives it.
pub open spec fn cfg_dec(j: JVal) -> crate::config::AppConfigV {
    let e = j->Obj_0;
    crate::config::AppConfigV {
        port: jf_int(e, "port"@, 0) as u16,
        auto_start: jf_bool(e, "autoStart"@, false),
        launch_at_login: jf_bool(e, "launchAtLogin"@, false),
        debug: jf_bool(e, "debug"@, false),
        proxy_url: jf_str(e, "proxyUrl"@, ""@),
        request_retry: jf_int(e, "requestRetry"@, 0) as u16,
        quota_switch_project: jf_bool(e, "quotaSwitchProject"@, false),
        quota_switch_preview_model: jf_bool(e, "quotaSwitchPreviewModel"@, false),
        usage_stats_enabled: jf_bool(e, "usageStatsEnabled"@, true),
        request_logging: jf_bool(e, "requestLogging"@, false),
        logging_to_file: jf_bool(e, "loggingToFile"@, false),
        logs_max_total_size_mb: jf_int(e, "logsMaxTotalSizeMb"@, 100) as u32,
        config_version: jf_int(e, "configVersion"@, 1) as u8,
        amp_api_key: jf_str(e, "ampApiKey"@, ""@),
        amp_model_mappings: match jlookup(e, "ampModelMappings"@) {
            Some(JVal::Arr(a)) => arr_rules(a),
            _ => Seq::empty(),
        },
        amp_openai_provider: match jlookup(e, "ampOpenaiProvider"@) {
            Some(JVal::Obj(p)) => Some(dec_provider(JVal::Obj(p))),
            _ => None,
        },
        amp_openai_providers: match jlookup(e, "ampOpenaiProviders"@) {
            Some(JVal::Arr(a)) => arr_providers(a),
            _ => Seq::empty(),
        },
        amp_routing_mode: jf_str(e, "ampRoutingMode"@, ""@),
        copilot: match jlookup(e, "copilot"@) {
            None => crate::types::copilot::copilot_config_default(),
            Some(v) => dec_copilot(v),
        },
        force_model_mappings: jf_bool(e, "forceModelMappings"@, false),
        claude_api_keys: match jlookup(e, "claudeApiKeys"@) {
            Some(JVal::Arr(a)) => arr_claudes(a),
            _ => Seq::empty(),
        },
        gemini_api_keys: match jlookup(e, "geminiApiKeys"@) {
            Some(JVal::Arr(a)) => arr_geminis(a),
            _ => Seq::empty(),
        },
        codex_api_keys: match jlookup(e, "codexApiKeys"@) {
            Some(JVal::Arr(a)) => arr_codexes(a),
            _ => Seq::empty(),
        },
        thinking_budget_mode: jf_str(e, "thinkingBudgetMode"@, ""@),
        thinking_budget_custom: jf_int(e, "thinkingBudgetCustom"@, 0) as u32,
        reasoning_effort_level: jf_str(e, "reasoningEffortLevel"@, ""@),
        close_to_tray: jf_bool(e, "closeToTray"@, true),
        max_retry_interval: jf_int(e, "maxRetryInterval"@, 0) as i32,
        proxy_api_key: jf_str(e, "proxyApiKey"@, "proxypal-local"@),
    }
}

pub open spec fn enc_opt_provider(p: Option<AmpOpenAIProviderV>) -> JVal {
    match p {
        Some(x) => enc_provider(x),
        None => JVal::Null,
    }
}

/// The exact JSON shape of a document: every field written, in schema
/// order, with `null` standing for an empty optional value.
pub open spec fn enc_cfg(c: crate::config::AppConfigV) -> JVal {
    JVal::Obj(
        seq![
            ("port"@, JVal::Int(c.port as i64)),
            ("autoStart"@, JVal::Bool(c.auto_start)),
            ("launchAtLogin"@, JVal::Bool(c.launch_at_login)),
            ("debug"@, JVal::Bool(c.debug)),
            ("proxyUrl"@, JVal::Str(c.proxy_url)),
            ("requestRetry"@, JVal::Int(c.request_retry as i64)),
            ("quotaSwitchProject"@, JVal::Bool(c.quota_switch_project)),
            ("quotaSwitchPreviewModel"@, JVal::Bool(c.quota_switch_preview_model)),
            ("usageStatsEnabled"@, JVal::Bool(c.usage_stats_enabled)),
            ("requestLogging"@, JVal::Bool(c.request_logging)),
            ("loggingToFile"@, JVal::Bool(c.logging_to_file)),
            ("logsMaxTotalSizeMb"@, JVal::Int(c.logs_max_total_size_mb as i64)),
            ("configVersion"@, JVal::Int(c.config_version as i64)),
            ("ampApiKey"@, JVal::Str(c.amp_api_key)),
            ("ampModelMappings"@, enc_rules(c.amp_model_mappings)),
            ("ampOpenaiProvider"@, enc_opt_provider(c.amp_openai_provider)),
            ("ampOpenaiProviders"@, enc_providers(c.amp_openai_providers)),
            ("ampRoutingMode"@, JVal::Str(c.amp_routing_mode)),
            ("copilot"@, enc_copilot(c.copilot)),
            ("forceModelMappings"@, JVal::Bool(c.force_model_mappings)),
            ("claudeApiKeys"@, enc_claudes(c.claude_api_keys)),
            ("geminiApiKeys"@, enc_geminis(c.gemini_api_keys)),
            ("codexApiKeys"@, enc_codexes(c.codex_api_keys)),
            ("thinkingBudgetMode"@, JVal::Str(c.thinking_budget_mode)),
            ("thinkingBudgetCustom"@, JVal::Int(c.thinking_budget_custom as i64)),
            ("reasoningEffortLevel"@, JVal::Str(c.reasoning_effort_level)),
            ("closeToTray"@, JVal::Bool(c.close_to_tray)),
            ("maxRetryInterval"@, JVal::Int(c.max_retry_interval as i64)),
            ("proxyApiKey"@, JVal::Str(c.proxy_api_key)),
        ],
    )
}

proof fn lemma_cfg_key_facts()
    ensures
        "port"@.len() == 4,
        "autoStart"@.len() == 9,
        "launchAtLogin"@.len() == 13,
        "debug"@.len() == 5,
        "proxyUrl"@.len() == 8,
        "requestRetry"@.len() == 12,
        "quotaSwitchProject"@.len() == 18,
        "quotaSwitchPreviewModel"@.len() == 23,
        "usageStatsEnabled"@.len() == 17,
        "requestLogging"@.len() == 14,
        "loggingToFile"@.len() == 13,
        "logsMaxTotalSizeMb"@.len() == 18,
        "configVersion"@.len() == 13,
        "ampApiKey"@.len() == 9,
        "ampModelMappings"@.len() == 16,
        "ampOpenaiProvider"@.len() == 17,
        "ampOpenaiProviders"@.len() == 18,
        "ampRoutingMode"@.len() == 14,
        "copilot"@.len() == 7,
        "forceModelMappings"@.len() == 18,
        "claudeApiKeys"@.len() == 13,
        "geminiApiKeys"@.len() == 13,
        "codexApiKeys"@.len() == 12,
        "thinkingBudgetMode"@.len() == 18,
        "thinkingBudgetCustom"@.len() == 20,
        "reasoningEffortLevel"@.len() == 20,
        "closeToTray"@.len() == 11,
        "maxRetryInterval"@.len() == 16,
        "proxyApiKey"@.len() == 11,
        "autoStart"@[1] == 'u' && "ampApiKey"@[1] == 'm',
        "launchAtLogin"@[0] == 'l' && "launchAtLogin"@[1] == 'a',
        "loggingToFile"@[0] == 'l' && "loggingToFile"@[1] == 'o',
        "configVersion"@[0] == 'c' && "configVersion"@[1] == 'o',
        "claudeApiKeys"@[0] == 'c' && "claudeApiKeys"@[1] == 'l',
        "geminiApiKeys"@[0] == 'g',
        "requestRetry"@[0] == 'r' && "codexApiKeys"@[0] == 'c',
        "quotaSwitchProject"@[0] == 'q',
        "logsMaxTotalSizeMb"@[0] == 'l',
        "ampOpenaiProviders"@[0] == 'a',
        "forceModelMappings"@[0] == 'f',
        "thinkingBudgetMode"@[0] == 't',
        "usageStatsEnabled"@[0] == 'u' && "ampOpenaiProvider"@[0] == 'a',
        "requestLogging"@[0] == 'r' && "ampRoutingMode"@[0] == 'a',
        "ampModelMappings"@[0] == 'a' && "maxRetryInterval"@[0] == 'm',
        "thinkingBudgetCustom"@[0] == 't' && "reasoningEffortLevel"@[0] == 'r',
        "closeToTray"@[0] == 'c' && "proxyApiKey"@[0] == 'p',
{
    reveal_strlit("port");
    reveal_strlit("autoStart");
    reveal_strlit("launchAtLogin");
    reveal_strlit("debug");
    reveal_strlit("proxyUrl");
    reveal_strlit("requestRetry");
    reveal_strlit("quotaSwitchProject");
    reveal_strlit("quotaSwitchPreviewModel");
    reveal_strlit("usageStatsEnabled");
    reveal_strlit("requestLogging");
    reveal_strlit("loggingToFile");
    reveal_strlit("logsMaxTotalSizeMb");
    reveal_strlit("configVersion");
    reveal_strlit("ampApiKey");
    reveal_strlit("ampModelMappings");
    reveal_strlit("ampOpenaiProvider");
    reveal_strlit("ampOpenaiProviders");
    reveal_strlit("ampRoutingMode");
    reveal_strlit("copilot");
    reveal_strlit("forceModelMappings");
    reveal_strlit("claudeApiKeys");
    reveal_strlit("geminiApiKeys");
    reveal_strlit("codexApiKeys");
    reveal_strlit("thinkingBudgetMode");
    reveal_strlit("thinkingBudgetCustom");
    reveal_strlit("reasoningEffortLevel");
    reveal_strlit("closeToTray");
    reveal_strlit("maxRetryInterval");
    reveal_strlit("proxyApiKey");
}

/// Decoding an encoded document gives it back, field for field: the
/// round-trip law of the persisted format.
#[verifier::rlimit(100)]
pub proof fn lemma_cfg_roundtrip(c: crate::config::AppConfigV)
    ensures
        cfg_dec_ok(enc_cfg(c)),
        cfg_dec(enc_cfg(c)) == c,
{
    lemma_cfg_key_facts();
    let e = enc_cfg(c)->Obj_0;
    lemma_jlookup_at(e, 0, "port"@);
    lemma_jlookup_at(e, 1, "autoStart"@);
    lemma_jlookup_at(e, 2, "launchAtLogin"@);
    lemma_jlookup_at(e, 3, "debug"@);
    lemma_jlookup_at(e, 4, "proxyUrl"@);
    lemma_jlookup_at(e, 5, "requestRetry"@);
    lemma_jlookup_at(e, 6, "quotaSwitchProject"@);
    lemma_jlookup_at(e, 7, "quotaSwitchPreviewModel"@);
    lemma_jlookup_at(e, 8, "usageStatsEnabled"@);
    lemma_jlookup_at(e, 9, "requestLogging"@);
    lemma_jlookup_at(e, 10, "loggingToFile"@);
    lemma_jlookup_at(e, 11, "logsMaxTotalSizeMb"@);
    lemma_jlookup_at(e, 12, "configVersion"@);
    lemma_jlookup_at(e, 13, "ampApiKey"@);
    lemma_jlookup_at(e, 14, "ampModelMappings"@);
    lemma_jlookup_at(e, 15, "ampOpenaiProvider"@);
    lemma_jlookup_at(e, 16, "ampOpenaiProviders"@);
    lemma_jlookup_at(e, 17, "ampRoutingMode"@);
    lemma_jlookup_at(e, 18, "copilot"@);
    lemma_jlookup_at(e, 19, "forceModelMappings"@);
    lemma_jlookup_at(e, 20, "claudeApiKeys"@);
    lemma_jlookup_at(e, 21, "geminiApiKeys"@);
    lemma_jlookup_at(e, 22, "codexApiKeys"@);
    lemma_jlookup_at(e, 23, "thinkingBudgetMode"@);
    lemma_jlookup_at(e, 24, "thinkingBudgetCustom"@);
    lemma_jlookup_at(e, 25, "reasoningEffortLevel"@);
    lemma_jlookup_at(e, 26, "closeToTray"@);
    lemma_jlookup_at(e, 27, "maxRetryInterval"@);
    lemma_jlookup_at(e, 28, "proxyApiKey"@);
    lemma_rules_roundtrip(c.amp_model_mappings);
    match c.amp_openai_provider {
        Some(p) => lemma_provider_roundtrip(p),
        None => {},
    }
    lemma_providers_roundtrip(c.amp_openai_providers);
    lemma_copilot_roundtrip(c.copilot);
    lemma_claudes_roundtrip(c.claude_api_keys);
    lemma_geminis_roundtrip(c.gemini_api_keys);
    lemma_codexes_roundtrip(c.codex_api_keys);
    assert(cfg_dec(enc_cfg(c)) =~= c);
}

/// The JSON form of a document, exactly as `enc_cfg` lays it out.
#[verifier::rlimit(100)]
pub fn config_to_json(c: &AppConfig) -> (r: Json)
    ensures
        r@ == enc_cfg(c.deep_view()),
{
    let mut e: Vec<(String, Json)> = Vec::new();
    e.push((String::from_str("port"), Json::Int(c.port as i64)));
    e.push((String::from_str("autoStart"), Json::Bool(c.auto_start)));
    e.push((String::from_str("launchAtLogin"), Json::Bool(c.launch_at_login)));
    e.push((String::from_str("debug"), Json::Bool(c.debug)));
    e.push((String::from_str("proxyUrl"), Json::Str(c.proxy_url.clone())));
    e.push((String::from_str("requestRetry"), Json::Int(c.request_retry as i64)));
    e.push((String::from_str("quotaSwitchProject"), Json::Bool(c.quota_switch_project)));
    e.push((String::from_str("quotaSwitchPreviewModel"), Json::Bool(c.quota_switch_preview_model)));
    e.push((String::from_str("usageStatsEnabled"), Json::Bool(c.usage_stats_enabled)));
    e.push((String::from_str("requestLogging"), Json::Bool(c.request_logging)));
    e.push((String::from_str("loggingToFile"), Json::Bool(c.logging_to_file)));
    e.push((String::from_str("logsMaxTotalSizeMb"), Json::Int(c.logs_max_total_size_mb as i64)));
    e.push((String::from_str("configVersion"), Json::Int(c.config_version as i64)));
    e.push((String::from_str("ampApiKey"), Json::Str(c.amp_api_key.clone())));
    e.push((String::from_str("ampModelMappings"), rules_to_json(&c.amp_model_mappings)));
    let provider = match &c.amp_openai_provider {
        Some(p) => provider_to_json(p),
        None => Json::Null,
    };
    e.push((String::from_str("ampOpenaiProvider"), provider));
    e.push((String::from_str("ampOpenaiProviders"), providers_to_json(&c.amp_openai_providers)));
    e.push((String::from_str("ampRoutingMode"), Json::Str(c.amp_routing_mode.clone())));
    e.push((String::from_str("copilot"), copilot_to_json(&c.copilot)));
    e.push((String::from_str("forceModelMappings"), Json::Bool(c.force_model_mappings)));
    e.push((String::from_str("claudeApiKeys"), claudes_to_json(&c.claude_api_keys)));
    e.push((String::from_str("geminiApiKeys"), geminis_to_json(&c.gemini_api_keys)));
    e.push((String::from_str("codexApiKeys"), codexes_to_json(&c.codex_api_keys)));
    e.push((String::from_str("thinkingBudgetMode"), Json::Str(c.thinking_budget_mode.clone())));
    e.push((String::from_str("thinkingBudgetCustom"), Json::Int(c.thinking_budget_custom as i64)));
    e.push((String::from_str("reasoningEffortLevel"), Json::Str(c.reasoning_effort_level.clone())));
    e.push((String::from_str("closeToTray"), Json::Bool(c.close_to_tray)));
    e.push((String::from_str("maxRetryInterval"), Json::Int(c.max_retry_interval as i64)));
    e.push((String::from_str("proxyApiKey"), Json::Str(c.proxy_api_key.clone())));
    proof {
        lemma_jentries_of(e@);
        assert forall|k: int| 0 <= k < e@.len() implies jentries_of(e@)[k] == enc_cfg(
            c.deep_view(),
        )->Obj_0[k] by {
            assert(jentries_of(e@)[k] == (e@[k].0@, e@[k].1@));
        }
        assert(jentries_of(e@) =~= enc_cfg(c.deep_view())->Obj_0);
    }
    Json::Obj(e)
}

/// The document a JSON value holds, with absent fields defaulted;
/// `None` when the value does not fit the schema.
#[verifier::rlimit(100)]
pub fn config_from_json(j: &Json) -> (r: Option<AppConfig>)
    ensures
        cfg_dec_ok(j@) ==> (r matches Some(c) && c.deep_view() == cfg_dec(j@)),
        !cfg_dec_ok(j@) ==> r is None,
{
    match j {
        Json::Obj(e) => {
            let port = match get_req_int(e, "port", 0, 65535) {
                Some(i) => i as u16,
                None => {
                    return None;
                },
            };
            let auto_start = match get_req_bool(e, "autoStart") {
                Some(b) => b,
                None => {
                    return None;
                },
            };
            let launch_at_login = match get_req_bool(e, "launchAtLogin") {
                Some(b) => b,
                None => {
                    return None;
                },
            };
            let debug = match get_bool(e, "debug", false) {
                Some(b) => b,
                None => {
                    return None;
                },
            };
            let proxy_url = match get_string(e, "proxyUrl", "") {
                Some(s) => s,
                None => {
                    return None;
                },
            };
            let request_retry = match get_int(e, "requestRetry", 0, 65535, 0) {
                Some(i) => i as u16,
                None => {
                    return None;
                },
            };
            let quota_switch_project = match get_bool(e, "quotaSwitchProject", false) {
                Some(b) => b,
                None => {
                    return None;
                },
            };
            let quota_switch_preview_model = match get_bool(e, "quotaSwitchPreviewModel", false) {
                Some(b) => b,
                None => {
                    return None;
                },
            };
            let usage_stats_enabled = match get_bool(e, "usageStatsEnabled", true) {
                Some(b) => b,
                None => {
                    return None;
                },
            };
            let request_logging = match get_bool(e, "requestLogging", false) {
                Some(b) => b,
                None => {
                    return None;
                },
            };
            let logging_to_file = match get_bool(e, "loggingToFile", false) {
                Some(b) => b,
                None => {
                    return None;
                },
            };
            let logs_max_total_size_mb = match get_int(e, "logsMaxTotalSizeMb", 0, 4294967295, 100) {
                Some(i) => i as u32,
                None => {
                    return None;
                },
            };
            let config_version = match get_int(e, "configVersion", 0, 255, 1) {
                Some(i) => i as u8,
                None => {
                    return None;
                },
            };
            let amp_api_key = match get_string(e, "ampApiKey", "") {
                Some(s) => s,
                None => {
                    return None;
                },
            };
            let amp_model_mappings = match jget(e, "ampModelMappings") {
                None => Vec::new(),
                Some(x) => {
                    if let Json::Arr(_) = x {
                        match rules_from_json(x) {
                            Some(m) => m,
                            None => {
                                return None;
                            },
                        }
                    } else {
                        return None;
                    }
                },
            };
            let amp_openai_provider = match jget(e, "ampOpenaiProvider") {
                None => None,
                Some(Json::Null) => None,
                Some(x) => {
                    match provider_from_json(x) {
                        Some(p) => Some(p),
                        None => {
                            return None;
                        },
                    }
                },
            };
            let amp_openai_providers = match jget(e, "ampOpenaiProviders") {
                None => Vec::new(),
                Some(x) => {
                    if let Json::Arr(_) = x {
                        match providers_from_json(x) {
                            Some(m) => m,
                            None => {
                                return None;
                            },
                        }
                    } else {
                        return None;
                    }
                },
            };
            let amp_routing_mode = match get_string(e, "ampRoutingMode", "") {
                Some(s) => s,
                None => {
                    return None;
                },
            };
            let copilot = match jget(e, "copilot") {
                None => CopilotConfig::default(),
                Some(x) => {
                    match copilot_from_json(x) {
                        Some(cc) => cc,
                        None => {
                            return None;
                        },
                    }
                },
            };
            let force_model_mappings = match get_bool(e, "forceModelMappings", false) {
                Some(b) => b,
                None => {
                    return None;
                },
            };
            let claude_api_keys = match jget(e, "claudeApiKeys") {
                None => Vec::new(),
                Some(x) => {
                    if let Json::Arr(_) = x {
                        match claudes_from_json(x) {
                            Some(m) => m,
                            None => {
                                return None;
                            },
                        }
                    } else {
                        return None;
                    }
                },
            };
            let gemini_api_keys = match jget(e, "geminiApiKeys") {
                None => Vec::new(),
                Some(x) => {
                    if let Json::Arr(_) = x {
                        match geminis_from_json(x) {
                            Some(m) => m,
                            None => {
                                return None;
                            },
                        }
                    } else {
                        return None;
                    }
                },
            };
            let codex_api_keys = match jget(e, "codexApiKeys") {
                None => Vec::new(),
                Some(x) => {
                    if let Json::Arr(_) = x {
                        match codexes_from_json(x) {
                            Some(m) => m,
                            None => {
                                return None;
                            },
                        }
                    } else {
                        return None;
                    }
                },
            };
            let thinking_budget_mode = match get_string(e, "thinkingBudgetMode", "") {
                Some(s) => s,
                None => {
                    return None;
                },
            };
            let thinking_budget_custom = match get_int(e, "thinkingBudgetCustom", 0, 4294967295, 0) {
                Some(i) => i as u32,
                None => {
                    return None;
                },
            };
            let reasoning_effort_level = match get_string(e, "reasoningEffortLevel", "") {
                Some(s) => s,
                None => {
                    return None;
                },
            };
            let close_to_tray = match get_bool(e, "closeToTray", true) {
                Some(b) => b,
                None => {
                    return None;
                },
            };
            let max_retry_interval = match get_int(e, "maxRetryInterval", -2147483648, 2147483647, 0) {
                Some(i) => i as i32,
                None => {
                    return None;
                },
            };
            let proxy_api_key = match get_string(e, "proxyApiKey", "proxypal-local") {
                Some(s) => s,
                None => {
                    return None;
                },
            };
            let r = AppConfig {
                port,
                auto_start,
                launch_at_login,
                debug,
                proxy_url,
                request_retry,
                quota_switch_project,
                quota_switch_preview_model,
                usage_stats_enabled,
                request_logging,
                logging_to_file,
                logs_max_total_size_mb,
                config_version,
                amp_api_key,
                amp_model_mappings,
                amp_openai_provider,
                amp_openai_providers,
                amp_routing_mode,
                copilot,
                force_model_mappings,
                claude_api_keys,
                gemini_api_keys,
                codex_api_keys,
                thinking_budget_mode,
                thinking_budget_custom,
                reasoning_effort_level,
                close_to_tray,
                max_retry_interval,
                proxy_api_key,
            };
            proof {
                assert(r.deep_view() =~~= cfg_dec(j@));
            }
            Some(r)
        },
        _ => None,
    }
}

} // verus!
