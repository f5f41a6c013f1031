//! An OBS `_service` file, decoded: the services it runs and their
//! parameters; and the vendor options that the `cargo_vendor` service holds.
use vstd::prelude::*;
use vstd::string::*;
use crate::archive::Compression;
use crate::commands::texts;
use crate::text::{owned, same_text};

verus! {

/// The services of a `_service` file.
#[derive(Clone, Debug)]
pub struct Services {
    pub service: Option<Vec<Service>>,
}

/// One `<service name=".." mode="..">`.
#[derive(Clone, Debug)]
pub struct Service {
    pub name: Option<String>,
    pub mode: Option<String>,
    pub param: Option<Vec<Param>>,
}

/// One `<param name="..">text</param>`.
#[derive(Clone, Debug)]
pub struct Param {
    pub name: Option<String>,
    pub text: Option<String>,
}

pub open spec fn named(o: Option<String>, n: Seq<char>) -> bool {
    o matches Some(s) && s@ == n
}

fn is_named(o: &Option<String>, n: &str) -> (r: bool)
    ensures
        r == named(*o, n@),
{
    match o {
        Some(s) => same_text(s.as_str(), n),
        None => false,
    }
}

/// The index of the first `cargo_vendor` service, if there is one.
pub fn find_cargo_vendor(services: &Services) -> (r: Option<usize>)
    ensures
        match services.service {
            None => r is None,
            Some(list) => match r {
                Some(i) => i < list@.len() && named(list@[i as int].name, "cargo_vendor"@)
                    && forall|k: int| 0 <= k < i ==> !named(#[trigger] list@[k].name, "cargo_vendor"@),
                None => forall|k: int|
                    0 <= k < list@.len() ==> !named(#[trigger] list@[k].name, "cargo_vendor"@),
            },
        },
{
    match &services.service {
        None => None,
        Some(list) => {
            let mut i: usize = 0;
            while i < list.len()
                invariant
                    services.service is Some,
                    services.service->Some_0@ == list@,
                    i <= list@.len(),
                    forall|k: int| 0 <= k < i ==> !named(#[trigger] list@[k].name, "cargo_vendor"@),
                decreases list@.len() - i,
            {
                if is_named(&list[i].name, "cargo_vendor") {
                    return Some(i);
                }
                i += 1;
            }
            None
        },
    }
}

/// What the `cargo_vendor` service asks for.
#[derive(Clone, Debug)]
pub struct VendorParams {
    pub compression: Compression,
    pub src: String,
    pub cargotomls: Vec<String>,
    pub tag: Option<String>,
    pub accept_risks: Vec<String>,
}

/// The codec that a `compression` parameter names: `gz`, `xz`, `bz2` or
/// `not`, and the default otherwise.
pub open spec fn codec_param(t: Seq<char>) -> Compression {
    if t == "gz"@ {
        Compression::Gz
    } else if t == "xz"@ {
        Compression::Xz
    } else if t == "bz2"@ {
        Compression::Bz2
    } else if t == "not"@ {
        Compression::Not
    } else {
        Compression::Zst
    }
}

fn codec_from_param(t: &str) -> (r: Compression)
    ensures
        r == codec_param(t@),
{
    if same_text(t, "gz") {
        Compression::Gz
    } else if same_text(t, "xz") {
        Compression::Xz
    } else if same_text(t, "bz2") {
        Compression::Bz2
    } else if same_text(t, "not") {
        Compression::Not
    } else {
        Compression::Zst
    }
}

/// The texts of the parameters that carry one of the names, concatenated.
pub open spec fn joined_text(params: Seq<Param>, names: Seq<Seq<char>>) -> Seq<char>
    decreases params.len(),
{
    if params.len() == 0 {
        seq![]
    } else {
        let p = params.last();
        joined_text(params.drop_last(), names) + if p.name matches Some(n) && names.contains(n@)
            && p.text is Some {
            p.text->Some_0@
        } else {
            seq![]
        }
    }
}

/// The texts of the parameters with the name, one per parameter.
pub open spec fn listed_texts(params: Seq<Param>, name: Seq<char>, nonempty_only: bool) -> Seq<
    Seq<char>,
>
    decreases params.len(),
{
    if params.len() == 0 {
        seq![]
    } else {
        let p = params.last();
        listed_texts(params.drop_last(), name, nonempty_only) + if named(p.name, name)
            && p.text is Some && (!nonempty_only || p.text->Some_0@.len() > 0) {
            seq![p.text->Some_0@]
        } else {
            seq![]
        }
    }
}

/// Reads the vendor options from the service's parameters. `compression`
/// and the source (`src`, `srctar` or `srcdir`) are required; the last
/// non-empty `tag` wins.
pub fn vendor_params(params: &Vec<Param>) -> (r: Option<VendorParams>)
    ensures
        ({
            let comp = joined_text(params@, seq!["compression"@]);
            let src = joined_text(params@, seq!["src"@, "srctar"@, "srcdir"@]);
            let tags = listed_texts(params@, "tag"@, true);
            &&& r is Some <==> (comp.len() > 0 && src.len() > 0)
            &&& r matches Some(v) ==> {
                &&& v.compression == codec_param(comp)
                &&& v.src@ == src
                &&& texts(v.cargotomls@) == listed_texts(params@, "cargotomls"@, false)
                &&& texts(v.accept_risks@) == listed_texts(params@, "i-accept-the-risk"@, false)
                &&& match v.tag {
                    Some(t) => tags.len() > 0 && t@ == tags.last(),
                    None => tags.len() == 0,
                }
            }
        }),
{
    let ghost comp_names = seq!["compression"@];
    let ghost src_names = seq!["src"@, "srctar"@, "srcdir"@];
    let mut compression = String::new();
    let mut src = String::new();
    let mut cargotomls: Vec<String> = Vec::new();
    let mut accept_risks: Vec<String> = Vec::new();
    let mut tag: Option<String> = None;
    let mut i: usize = 0;
    proof {
        reveal_strlit("compression");
        reveal_strlit("src");
        reveal_strlit("srctar");
        reveal_strlit("srcdir");
    }
    while i < params.len()
        invariant
            i <= params@.len(),
            comp_names == seq!["compression"@],
            src_names == seq!["src"@, "srctar"@, "srcdir"@],
            compression@ == joined_text(params@.take(i as int), comp_names),
            src@ == joined_text(params@.take(i as int), src_names),
            texts(cargotomls@) == listed_texts(params@.take(i as int), "cargotomls"@, false),
            texts(accept_risks@) == listed_texts(params@.take(i as int), "i-accept-the-risk"@, false),
            match tag {
                Some(t) => listed_texts(params@.take(i as int), "tag"@, true).len() > 0 && t@
                    == listed_texts(params@.take(i as int), "tag"@, true).last(),
                None => listed_texts(params@.take(i as int), "tag"@, true).len() == 0,
            },
        decreases params@.len() - i,
    {
        let p = &params[i];
        let ghost pre = params@.take(i as int);
        let ghost cur = params@.take(i + 1);
        assert(cur.drop_last() =~= pre);
        assert(cur.last() == params@[i as int]);
        match (&p.name, &p.text) {
            (Some(n), Some(t)) => {
                let nm = n.as_str();
                let tx = t.as_str();
                let is_comp = same_text(nm, "compression");
                let is_src = same_text(nm, "src") || same_text(nm, "srctar") || same_text(
                    nm,
                    "srcdir",
                );
                proof {
                    assert(comp_names.contains(n@) <==> n@ == "compression"@) by {
                        if comp_names.contains(n@) {
                            let k = choose|k: int| 0 <= k < comp_names.len() && comp_names[k] == n@;
                            assert(k == 0);
                        }
                        if n@ == "compression"@ {
                            assert(comp_names[0] == n@);
                        }
                    }
                    assert(src_names.contains(n@) <==> (n@ == "src"@ || n@ == "srctar"@ || n@
                        == "srcdir"@)) by {
                        if src_names.contains(n@) {
                            let k = choose|k: int| 0 <= k < src_names.len() && src_names[k] == n@;
                        }
                        if n@ == "src"@ {
                            assert(src_names[0] == n@);
                        }
                        if n@ == "srctar"@ {
                            assert(src_names[1] == n@);
                        }
                        if n@ == "srcdir"@ {
                            assert(src_names[2] == n@);
                        }
                    }
                }
                if is_comp {
                    compression.append(tx);
                }
                if is_src {
                    src.append(tx);
                }
                if same_text(nm, "cargotomls") {
                    let ghost before = cargotomls@;
                    cargotomls.push(owned(tx));
                    assert(texts(cargotomls@) =~= texts(before).push(tx@));
                }
                if same_text(nm, "tag") && tx.unicode_len() > 0 {
                    tag = Some(owned(tx));
                }
                if same_text(nm, "i-accept-the-risk") {
                    let ghost before = accept_risks@;
                    accept_risks.push(owned(tx));
                    assert(texts(accept_risks@) =~= texts(before).push(tx@));
                }
                assert(compression@ =~= joined_text(cur, comp_names));
                assert(src@ =~= joined_text(cur, src_names));
                assert(texts(cargotomls@) =~= listed_texts(cur, "cargotomls"@, false));
                assert(texts(accept_risks@) =~= listed_texts(cur, "i-accept-the-risk"@, false));
            },
            _ => {
                assert(compression@ =~= joined_text(cur, comp_names));
                assert(src@ =~= joined_text(cur, src_names));
                assert(texts(cargotomls@) =~= listed_texts(cur, "cargotomls"@, false));
                assert(texts(accept_risks@) =~= listed_texts(cur, "i-accept-the-risk"@, false));
            },
        }
        i += 1;
    }
    assert(params@.take(params@.len() as int) =~= params@);
    if compression.unicode_len() == 0 || src.unicode_len() == 0 {
        return None;
    }
    let comp = codec_from_param(compression.as_str());
    Some(VendorParams { compression: comp, src, cargotomls, tag, accept_risks })
}

} // verus!
