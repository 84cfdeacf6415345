//! The template compositor: pre-authored image fragments looked up by
//! (category, trait name) and concatenated in a fixed layer order inside one
//! canvas element. A sentinel trait value `"none"` suppresses an optional
//! accessory layer; a missing fragment for any other resolved trait is fatal.

use vstd::prelude::*;
use crate::GenError;
use crate::seq_views;

verus! {

/// How many layers the compositor stacks.
pub const LAYER_COUNT: u64 = 11;

/// The canvas element every composed document is wrapped in.
pub open spec fn spec_canvas_open() -> Seq<char> {
    "<svg width=\"100%\" height=\"100%\" viewBox=\"0 0 400 400\" xmlns=\"http://www.w3.org/2000/svg\">\n"@
}

/// The template category drawn at layer `k`, bottom first.
pub open spec fn spec_layer_cat(k: int) -> Seq<char> {
    if k == 0 {
        "background"@
    } else if k == 1 {
        "body"@
    } else if k == 2 {
        "nipples"@
    } else if k == 3 {
        "bodyAccessory"@
    } else if k == 4 {
        "ears"@
    } else if k == 5 {
        "head"@
    } else if k == 6 {
        "headAccessory"@
    } else if k == 7 {
        "nose"@
    } else if k == 8 {
        "outerEyes"@
    } else if k == 9 {
        "eyes"@
    } else {
        "mouth"@
    }
}

/// The schema category whose trait name picks layer `k`'s fragment: the
/// body parts all follow the species.
pub open spec fn spec_layer_source(k: int) -> Seq<char> {
    if k == 1 || k == 2 || k == 4 || k == 5 {
        "species"@
    } else {
        spec_layer_cat(k)
    }
}

/// Whether layer `k` is an optional accessory, suppressed by `"none"`.
pub open spec fn spec_layer_optional(k: int) -> bool {
    k == 3 || k == 6
}

/// A library of image fragments: (category, trait name, fragment) entries;
/// the first match wins.
pub struct TemplateLibrary {
    pub entries: Vec<(String, String, String)>,
}

/// The first fragment filed under `cat` and `name`.
pub open spec fn find_template(
    entries: Seq<(String, String, String)>,
    cat: Seq<char>,
    name: Seq<char>,
) -> Option<Seq<char>>
    decreases entries.len(),
{
    if entries.len() == 0 {
        Option::None
    } else if entries[0].0@ == cat && entries[0].1@ == name {
        Option::Some(entries[0].2@)
    } else {
        find_template(entries.drop_first(), cat, name)
    }
}

/// The trait value filed under category `cat` in a resolved attribute list.
pub open spec fn find_attr(cats: Seq<Seq<char>>, vals: Seq<Seq<char>>, cat: Seq<char>) -> Option<
    Seq<char>,
>
    decreases cats.len(),
{
    if cats.len() == 0 || vals.len() == 0 {
        Option::None
    } else if cats[0] == cat {
        Option::Some(vals[0])
    } else {
        find_attr(cats.drop_first(), vals.drop_first(), cat)
    }
}

/// The body of the document after the first `k` layers: fragments in layer
/// order, optional layers suppressed by `"none"`, a missing source category
/// malformed and a missing fragment fatal.
pub open spec fn compose_upto(
    cats: Seq<Seq<char>>,
    vals: Seq<Seq<char>>,
    entries: Seq<(String, String, String)>,
    k: int,
) -> Result<Seq<char>, GenError>
    decreases k,
{
    if k <= 0 {
        Result::Ok(Seq::empty())
    } else {
        match compose_upto(cats, vals, entries, k - 1) {
            Result::Err(e) => Result::Err(e),
            Result::Ok(acc) => match find_attr(cats, vals, spec_layer_source(k - 1)) {
                Option::None => Result::Err(GenError::MalformedTable),
                Option::Some(name) => if spec_layer_optional(k - 1) && name == "none"@ {
                    Result::Ok(acc)
                } else {
                    match find_template(entries, spec_layer_cat(k - 1), name) {
                        Option::None => Result::Err(GenError::MissingTemplate),
                        Option::Some(frag) => Result::Ok(acc + frag),
                    }
                },
            },
        }
    }
}

/// The whole composed document, or the first layer's failure.
pub open spec fn spec_compose(
    cats: Seq<Seq<char>>,
    vals: Seq<Seq<char>>,
    entries: Seq<(String, String, String)>,
) -> Result<Seq<char>, GenError> {
    match compose_upto(cats, vals, entries, LAYER_COUNT as int) {
        Result::Err(e) => Result::Err(e),
        Result::Ok(body) => Result::Ok(spec_canvas_open() + body + "</svg>"@),
    }
}

/// A failure at one layer decides every later prefix too.
proof fn lemma_compose_error_sticks(
    cats: Seq<Seq<char>>,
    vals: Seq<Seq<char>>,
    entries: Seq<(String, String, String)>,
    m: int,
    n: int,
)
    requires
        0 <= m <= n,
        compose_upto(cats, vals, entries, m) is Err,
    ensures
        compose_upto(cats, vals, entries, n) == compose_upto(cats, vals, entries, m),
    decreases n,
{
    if n > m {
        lemma_compose_error_sticks(cats, vals, entries, m, n - 1);
    }
}

impl TemplateLibrary {
    /// The fragment filed under `cat` and `name`, if any.
    pub fn lookup(&self, cat: &str, name: &String) -> (r: Option<String>)
        ensures
            match find_template(self.entries@, cat@, name@) {
                Option::Some(frag) => r is Some && r->0@ == frag,
                Option::None => r is None,
            },
    {
        let mut i: usize = 0;
        proof {
            assert(self.entries@.skip(0) =~= self.entries@);
        }
        while i < self.entries.len()
            invariant
                i <= self.entries@.len(),
                find_template(self.entries@.skip(i as int), cat@, name@) == find_template(
                    self.entries@,
                    cat@,
                    name@,
                ),
            decreases self.entries@.len() - i,
        {
            let entry = &self.entries[i];
            let cat_owned = String::from_str(cat);
            if entry.0 == cat_owned && entry.1 == *name {
                return Some(entry.2.clone());
            }
            proof {
                assert(self.entries@.skip(i as int).drop_first() =~= self.entries@.skip(
                    i as int + 1,
                ));
            }
            i = i + 1;
        }
        proof {
            assert(self.entries@.skip(self.entries@.len() as int) =~= Seq::<(
                String,
                String,
                String,
            )>::empty());
        }
        None
    }

    /// Concatenates the fragments for a resolved attribute list (category
    /// names and trait values, aligned) in the fixed layer order, inside one
    /// canvas element. Succeeds exactly when every layer's source category
    /// is present and every needed fragment exists; an optional accessory
    /// set to `"none"` is skipped.
    pub fn compose(&self, cats: &Vec<String>, vals: &Vec<String>) -> (r: Result<String, GenError>)
        ensures
            spec_compose(seq_views(cats@), seq_views(vals@), self.entries@) is Ok ==> r is Ok
                && r->Ok_0@ == spec_compose(seq_views(cats@), seq_views(vals@), self.entries@)->Ok_0,
            spec_compose(seq_views(cats@), seq_views(vals@), self.entries@) is Err ==> r is Err
                && r->Err_0 == spec_compose(seq_views(cats@), seq_views(vals@), self.entries@)->Err_0,
    {
        let mut body = String::new();
        let mut k: u64 = 0;
        proof {
            assert(body@ =~= Seq::<char>::empty());
        }
        while k < LAYER_COUNT
            invariant
                k <= LAYER_COUNT,
                compose_upto(seq_views(cats@), seq_views(vals@), self.entries@, k as int)
                    == Result::<Seq<char>, GenError>::Ok(body@),
            decreases LAYER_COUNT - k,
        {
            let (layer_cat, source, optional) = layer_info(k);
            let name = match find_attr_exec(cats, vals, source) {
                Some(name) => name,
                None => {
                    proof {
                        lemma_compose_error_sticks(
                            seq_views(cats@),
                            seq_views(vals@),
                            self.entries@,
                            k as int + 1,
                            LAYER_COUNT as int,
                        );
                    }
                    return Err(GenError::MalformedTable);
                },
            };
            let none_lit = String::from_str("none");
            if !(optional && name == none_lit) {
                match self.lookup(layer_cat, &name) {
                    Some(frag) => {
                        body.append(frag.as_str());
                    },
                    None => {
                        proof {
                            lemma_compose_error_sticks(
                                seq_views(cats@),
                                seq_views(vals@),
                                self.entries@,
                                k as int + 1,
                                LAYER_COUNT as int,
                            );
                        }
                        return Err(GenError::MissingTemplate);
                    },
                }
            }
            k = k + 1;
        }
        let mut s = String::from_str(
            "<svg width=\"100%\" height=\"100%\" viewBox=\"0 0 400 400\" xmlns=\"http://www.w3.org/2000/svg\">\n",
        );
        s.append(body.as_str());
        s.append("</svg>");
        Ok(s)
    }
}

/// The views of a whole trait-name table.
pub open spec fn table_views(names: Seq<Vec<String>>) -> Seq<Seq<Seq<char>>> {
    Seq::new(names.len(), |c: int| seq_views(names[c]@))
}

/// Whether one (category, trait, layer) triple can be drawn: either the
/// layer does not draw from that category, or the trait is a suppressed
/// optional, or the library holds its fragment.
pub open spec fn layer_ok(
    cats: Seq<Seq<char>>,
    names: Seq<Seq<Seq<char>>>,
    entries: Seq<(String, String, String)>,
    c: int,
    j: int,
    k: int,
) -> bool {
    spec_layer_source(k) == cats[c] && !(spec_layer_optional(k) && names[c][j] == "none"@)
        ==> find_template(entries, spec_layer_cat(k), names[c][j]) is Some
}

/// Template completeness: every trait name of every category can be drawn
/// at every layer that draws from its category.
pub open spec fn templates_complete(
    cats: Seq<Seq<char>>,
    names: Seq<Seq<Seq<char>>>,
    entries: Seq<(String, String, String)>,
) -> bool {
    forall|c: int, j: int, k: int|
        0 <= c < cats.len() && 0 <= j < names[c].len() && 0 <= k < LAYER_COUNT as int
            ==> #[trigger] layer_ok(cats, names, entries, c, j, k)
}

/// Batch validation over the whole table: true exactly when every trait
/// name that any layer may need has its fragment in the library.
pub fn validate_templates(cats: &Vec<String>, names: &Vec<Vec<String>>, lib: &TemplateLibrary) -> (r:
    bool)
    requires
        cats@.len() == names@.len(),
    ensures
        r == templates_complete(seq_views(cats@), table_views(names@), lib.entries@),
{
    let ghost cv = seq_views(cats@);
    let ghost nv = table_views(names@);
    let mut c: usize = 0;
    while c < cats.len()
        invariant
            cv == seq_views(cats@),
            nv == table_views(names@),
            cats@.len() == names@.len(),
            c <= cats@.len(),
            forall|c2: int, j2: int, k2: int|
                0 <= c2 < c && 0 <= j2 < nv[c2].len() && 0 <= k2 < LAYER_COUNT as int
                    ==> #[trigger] layer_ok(cv, nv, lib.entries@, c2, j2, k2),
        decreases cats@.len() - c,
    {
        let mut j: usize = 0;
        while j < names[c].len()
            invariant
                cv == seq_views(cats@),
                nv == table_views(names@),
                cats@.len() == names@.len(),
                c < cats@.len(),
                j <= names@[c as int]@.len(),
                forall|c2: int, j2: int, k2: int|
                    0 <= c2 < c && 0 <= j2 < nv[c2].len() && 0 <= k2 < LAYER_COUNT as int
                        ==> #[trigger] layer_ok(cv, nv, lib.entries@, c2, j2, k2),
                forall|j2: int, k2: int|
                    0 <= j2 < j && 0 <= k2 < LAYER_COUNT as int ==> #[trigger] layer_ok(
                        cv,
                        nv,
                        lib.entries@,
                        c as int,
                        j2,
                        k2,
                    ),
            decreases names@[c as int]@.len() - j,
        {
            let mut k: u64 = 0;
            while k < LAYER_COUNT
                invariant
                    cv == seq_views(cats@),
                    nv == table_views(names@),
                    cats@.len() == names@.len(),
                    c < cats@.len(),
                    j < names@[c as int]@.len(),
                    k <= LAYER_COUNT,
                    forall|c2: int, j2: int, k2: int|
                        0 <= c2 < c && 0 <= j2 < nv[c2].len() && 0 <= k2 < LAYER_COUNT as int
                            ==> #[trigger] layer_ok(cv, nv, lib.entries@, c2, j2, k2),
                    forall|j2: int, k2: int|
                        0 <= j2 < j && 0 <= k2 < LAYER_COUNT as int ==> #[trigger] layer_ok(
                            cv,
                            nv,
                            lib.entries@,
                            c as int,
                            j2,
                            k2,
                        ),
                    forall|k2: int|
                        0 <= k2 < k ==> #[trigger] layer_ok(
                            cv,
                            nv,
                            lib.entries@,
                            c as int,
                            j as int,
                            k2,
                        ),
                decreases LAYER_COUNT - k,
            {
                proof {
                    assert(cv[c as int] == cats@[c as int]@);
                    assert(nv[c as int] == seq_views(names@[c as int]@));
                    assert(nv[c as int][j as int] == names@[c as int]@[j as int]@);
                }
                let (layer_cat, source, optional) = layer_info(k);
                let source_owned = String::from_str(source);
                let name = &names[c][j];
                let none_lit = String::from_str("none");
                if cats[c] == source_owned && !(optional && *name == none_lit) {
                    if self_lookup_missing(lib, layer_cat, name) {
                        proof {
                            assert(!layer_ok(
                                cv,
                                nv,
                                lib.entries@,
                                c as int,
                                j as int,
                                k as int,
                            ));
                        }
                        return false;
                    }
                }
                k = k + 1;
            }
            j = j + 1;
        }
        c = c + 1;
    }
    true
}

fn self_lookup_missing(lib: &TemplateLibrary, cat: &str, name: &String) -> (r: bool)
    ensures
        r == (find_template(lib.entries@, cat@, name@) is None),
{
    match lib.lookup(cat, name) {
        Some(_) => false,
        None => true,
    }
}

/// The layer table: template category, source category, and whether the
/// layer is optional.
fn layer_info(k: u64) -> (r: (&'static str, &'static str, bool))
    requires
        k < LAYER_COUNT,
    ensures
        r.0@ == spec_layer_cat(k as int),
        r.1@ == spec_layer_source(k as int),
        r.2 == spec_layer_optional(k as int),
{
    match k {
        0 => ("background", "background", false),
        1 => ("body", "species", false),
        2 => ("nipples", "species", false),
        3 => ("bodyAccessory", "bodyAccessory", true),
        4 => ("ears", "species", false),
        5 => ("head", "species", false),
        6 => ("headAccessory", "headAccessory", true),
        7 => ("nose", "nose", false),
        8 => ("outerEyes", "outerEyes", false),
        9 => ("eyes", "eyes", false),
        _ => ("mouth", "mouth", false),
    }
}

/// The trait value filed under `cat`, by linear search.
fn find_attr_exec(cats: &Vec<String>, vals: &Vec<String>, cat: &str) -> (r: Option<String>)
    ensures
        match find_attr(seq_views(cats@), seq_views(vals@), cat@) {
            Option::Some(v) => r is Some && r->0@ == v,
            Option::None => r is None,
        },
{
    let ghost cv = seq_views(cats@);
    let ghost vv = seq_views(vals@);
    let mut i: usize = 0;
    proof {
        assert(cv.skip(0) =~= cv);
        assert(vv.skip(0) =~= vv);
    }
    while i < cats.len()
        invariant
            cv == seq_views(cats@),
            vv == seq_views(vals@),
            i <= cv.len(),
            i <= vv.len(),
            find_attr(cv.skip(i as int), vv.skip(i as int), cat@) == find_attr(cv, vv, cat@),
        decreases cv.len() - i,
    {
        if i >= vals.len() {
            proof {
                assert(vv.skip(i as int) =~= Seq::<Seq<char>>::empty());
            }
            return None;
        }
        let cat_owned = String::from_str(cat);
        if cats[i] == cat_owned {
            proof {
                assert(cv.skip(i as int)[0] == cats@[i as int]@);
                assert(vv.skip(i as int)[0] == vals@[i as int]@);
            }
            return Some(vals[i].clone());
        }
        proof {
            assert(cv.skip(i as int)[0] == cats@[i as int]@);
            assert(cv.skip(i as int).drop_first() =~= cv.skip(i as int + 1));
            assert(vv.skip(i as int).drop_first() =~= vv.skip(i as int + 1));
        }
        i = i + 1;
    }
    proof {
        assert(cv.skip(cv.len() as int) =~= Seq::<Seq<char>>::empty());
    }
    None
}

} // verus!
