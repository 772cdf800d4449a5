//! The models offered at setup, out of the service's model listing.
use vstd::prelude::*;

verus! {

/// The capability a model must list to be offered.
pub const GENERATE_CONTENT: &'static str = "generateContent";

/// The prefix the listing puts before each model identifier.
pub const MODEL_PREFIX: &'static str = "models/";

/// The character sequences of a list of texts.
pub open spec fn texts(v: Seq<String>) -> Seq<Seq<char>> {
    v.map_values(|s: String| s@)
}

/// One entry of the model listing.
#[derive(Clone, Debug, PartialEq, Eq)]
pub struct ModelInfo {
    pub name: String,
    pub supported_methods: Option<Vec<String>>,
}

pub struct ModelInfoModel {
    pub name: Seq<char>,
    pub methods: Option<Seq<Seq<char>>>,
}

impl View for ModelInfo {
    type V = ModelInfoModel;

    open spec fn view(&self) -> ModelInfoModel {
        ModelInfoModel {
            name: self.name@,
            methods: match self.supported_methods {
                Some(ms) => Some(texts(ms@)),
                None => None,
            },
        }
    }
}

/// Whether `m` lists the content-generation capability.
pub open spec fn offers_generation(m: ModelInfoModel) -> bool {
    m.methods matches Some(ms) && ms.contains(GENERATE_CONTENT@)
}

/// A model identifier without the listing's prefix.
pub open spec fn short_name(name: Seq<char>) -> Seq<char> {
    if MODEL_PREFIX@.is_prefix_of(name) {
        name.subrange(MODEL_PREFIX@.len() as int, name.len() as int)
    } else {
        name
    }
}

/// The short names of the models that offer generation, in listing order.
pub open spec fn offered(models: Seq<ModelInfoModel>) -> Seq<Seq<char>> {
    models.filter_map(
        |m: ModelInfoModel|
            if offers_generation(m) {
                Some(short_name(m.name))
            } else {
                None
            },
    )
}

/// Lexicographic order by code point, which is the order of `String`
/// (byte-wise on UTF-8, which keeps code point order).
pub open spec fn text_le(a: Seq<char>, b: Seq<char>) -> bool
    decreases a.len(),
{
    if a.len() == 0 {
        true
    } else if b.len() == 0 {
        false
    } else if a[0] != b[0] {
        (a[0] as u32) < (b[0] as u32)
    } else {
        text_le(a.drop_first(), b.drop_first())
    }
}

/// Relies on `slice::sort`: the same texts, ascending in `String` order.
#[verifier::external_body]
fn sort_texts(v: &mut Vec<String>)
    ensures
        texts(final(v)@).to_multiset() == texts(old(v)@).to_multiset(),
        forall|i: int, j: int|
            0 <= i < j < final(v)@.len() ==> text_le(#[trigger] final(v)@[i]@, #[trigger] final(v)@[j]@),
{
    v.sort();
}

/// Relies on `str::strip_prefix`: the rest of `s` where it starts with `p`.
#[verifier::external_body]
fn strip_prefix<'a>(s: &'a str, p: &str) -> (r: Option<&'a str>)
    ensures
        r is Some <==> p@.is_prefix_of(s@),
        r matches Some(t) ==> t@ == s@.subrange(p@.len() as int, s@.len() as int),
{
    s.strip_prefix(p)
}

/// The model identifier without the listing's prefix.
pub fn model_short_name(name: &str) -> (r: String)
    ensures
        r@ == short_name(name@),
{
    match strip_prefix(name, MODEL_PREFIX) {
        Some(t) => String::from_str(t),
        None => String::from_str(name),
    }
}

/// Whether the entry lists the content-generation capability.
pub fn supports_generation(m: &ModelInfo) -> (r: bool)
    ensures
        r == offers_generation(m@),
{
    match &m.supported_methods {
        None => false,
        Some(ms) => {
            let target = String::from_str(GENERATE_CONTENT);
            let ghost view = texts(ms@);
            assert(m@.methods == Some(view));
            let mut j: usize = 0;
            while j < ms.len()
                invariant
                    0 <= j <= ms.len(),
                    view == texts(ms@),
                    m@.methods == Some(view),
                    target@ == GENERATE_CONTENT@,
                    forall|k: int| 0 <= k < j ==> view[k] != GENERATE_CONTENT@,
                decreases ms.len() - j,
            {
                if ms[j] == target {
                    assert(view[j as int] == GENERATE_CONTENT@);
                    assert(view.contains(GENERATE_CONTENT@));
                    return true;
                }
                j += 1;
            }
            assert(!view.contains(GENERATE_CONTENT@));
            false
        },
    }
}


/// The models of a listing.
pub open spec fn infos(v: Seq<ModelInfo>) -> Seq<ModelInfoModel> {
    v.map_values(|m: ModelInfo| m@)
}

/// Each text comes no earlier than the ones after it.
pub open spec fn descending(s: Seq<Seq<char>>) -> bool {
    forall|i: int, j: int| 0 <= i < j < s.len() ==> text_le(#[trigger] s[j], #[trigger] s[i])
}

/// The models to offer out of a listing: the short names of those that offer
/// content generation, in descending order; `None` where there is none.
pub fn model_choices(models: &Vec<ModelInfo>) -> (r: Option<Vec<String>>)
    ensures
        r is None <==> offered(infos(models@)).len() == 0,
        r matches Some(v) ==> texts(v@).to_multiset() == offered(infos(models@)).to_multiset()
            && descending(texts(v@)),
{
    let ghost all = infos(models@);
    let mut names: Vec<String> = Vec::new();
    let mut i: usize = 0;
    while i < models.len()
        invariant
            i <= models.len(),
            all == infos(models@),
            texts(names@) == offered(all.take(i as int)),
        decreases models.len() - i,
    {
        proof {
            assert(all.take(i + 1).drop_last() =~= all.take(i as int));
            assert(all.take(i + 1).last() == models@[i as int]@);
        }
        if supports_generation(&models[i]) {
            let n = model_short_name(models[i].name.as_str());
            proof {
                assert(texts(names@.push(n)) =~= texts(names@).push(n@));
            }
            names.push(n);
        }
        i += 1;
    }
    assert(all.take(models.len() as int) =~= all);
    if names.len() == 0 {
        return None;
    }
    sort_texts(&mut names);
    let mut out: Vec<String> = Vec::new();
    let mut k: usize = names.len();
    while k > 0
        invariant
            k <= names.len(),
            out@.len() == names.len() - k,
            forall|t: int| 0 <= t < out@.len() ==> #[trigger] out@[t]@ == names@[names.len() - 1 - t]@,
        decreases k,
    {
        k -= 1;
        out.push(names[k].clone());
    }
    proof {
        let sorted = texts(names@);
        assert(texts(out@) =~= sorted.reverse());
        sorted.lemma_reverse_to_multiset();
        assert forall|a: int, b: int| 0 <= a < b < texts(out@).len() implies text_le(
            #[trigger] texts(out@)[b],
            #[trigger] texts(out@)[a],
        ) by {
            let n = names.len() as int;
            assert(text_le(names@[n - 1 - b]@, names@[n - 1 - a]@));
        }
    }
    Some(out)
}

/// The models offered when the listing cannot be had.
pub fn fallback_models() -> (r: Vec<String>)
    ensures
        texts(r@) == seq!["gemini-2.0-flash"@, "gemini-1.5-flash"@, "gemini-1.5-pro"@],
{
    let r = vec![
        String::from_str("gemini-2.0-flash"),
        String::from_str("gemini-1.5-flash"),
        String::from_str("gemini-1.5-pro"),
    ];
    assert(texts(r@) =~= seq!["gemini-2.0-flash"@, "gemini-1.5-flash"@, "gemini-1.5-pro"@]);
    r
}

} // verus!
