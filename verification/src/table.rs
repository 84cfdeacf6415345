//! The table-driven pipeline's data: a field schema, per-category ordered
//! trait-name tables, and one packed integer per index. A decoded field code
//! is a zero-based position in its category's table.

use vstd::prelude::*;
use crate::codec::FieldSchema;
use crate::codec::CAPACITY;
use crate::codec::spec_total_width;
use crate::codec::spec_decode;
use crate::codec::decode;
use crate::template::TemplateLibrary;
use crate::template::spec_compose;
use crate::GenError;
use crate::seq_views;

verus! {

/// Categories used only for rendering, never exposed as attributes.
pub open spec fn is_internal_cat(cat: Seq<char>) -> bool {
    cat == "nose"@ || cat == "outerEyes"@
}

/// Whether any of the first `c` categories is exposed.
pub open spec fn any_exposed_before(cats: Seq<Seq<char>>, c: int) -> bool
    decreases c,
{
    if c <= 0 {
        false
    } else {
        any_exposed_before(cats, c - 1) || !is_internal_cat(cats[c - 1])
    }
}

/// The JSON pairs of the first `c` categories, comma-separated, internal
/// categories skipped.
pub open spec fn attrs_json_upto(cats: Seq<Seq<char>>, vals: Seq<Seq<char>>, c: int) -> Seq<char>
    decreases c,
{
    if c <= 0 {
        Seq::empty()
    } else {
        attrs_json_upto(cats, vals, c - 1) + (if is_internal_cat(cats[c - 1]) {
            Seq::<char>::empty()
        } else {
            (if any_exposed_before(cats, c - 1) {
                ","@
            } else {
                Seq::<char>::empty()
            }) + "\""@ + cats[c - 1] + "\":\""@ + vals[c - 1] + "\""@
        })
    }
}

/// The canonical attribute document of the table-driven pipeline: one JSON
/// object of the exposed categories, in schema order.
pub open spec fn spec_attrs_doc(cats: Seq<Seq<char>>, vals: Seq<Seq<char>>) -> Seq<char> {
    "{"@ + attrs_json_upto(cats, vals, cats.len() as int) + "}"@
}

fn is_internal(cat: &String) -> (r: bool)
    ensures
        r == is_internal_cat(cat@),
{
    let nose = String::from_str("nose");
    let outer = String::from_str("outerEyes");
    *cat == nose || *cat == outer
}

/// Serializes aligned category names and trait values as one JSON object,
/// skipping the internal categories.
pub fn attributes_doc(cats: &Vec<String>, vals: &Vec<String>) -> (r: String)
    requires
        cats@.len() == vals@.len(),
    ensures
        r@ == spec_attrs_doc(seq_views(cats@), seq_views(vals@)),
{
    let ghost cv = seq_views(cats@);
    let ghost vv = seq_views(vals@);
    let mut s = String::from_str("{");
    let mut seen = false;
    let mut c: usize = 0;
    proof {
        assert(s@ == "{"@ + attrs_json_upto(cv, vv, 0));
    }
    while c < cats.len()
        invariant
            cv == seq_views(cats@),
            vv == seq_views(vals@),
            cats@.len() == vals@.len(),
            c <= cats@.len(),
            seen == any_exposed_before(cv, c as int),
            s@ == "{"@ + attrs_json_upto(cv, vv, c as int),
        decreases cats@.len() - c,
    {
        proof {
            assert(cv[c as int] == cats@[c as int]@);
            assert(vv[c as int] == vals@[c as int]@);
        }
        if !is_internal(&cats[c]) {
            if seen {
                s.append(",");
            }
            s.append("\"");
            s.append(cats[c].as_str());
            s.append("\":\"");
            s.append(vals[c].as_str());
            s.append("\"");
            seen = true;
        }
        proof {
            assert(s@ =~= "{"@ + attrs_json_upto(cv, vv, c as int + 1));
        }
        c = c + 1;
    }
    s.append("}");
    proof {
        assert(s@ =~= spec_attrs_doc(cv, vv));
    }
    s
}

/// The packed-trait table: the schema, the per-category trait names (one
/// list per schema field, in schema order), and the packed integers, one per
/// index.
pub struct TraitTable {
    pub schema: FieldSchema,
    pub categories: Vec<String>,
    pub names: Vec<Vec<String>>,
    pub packed: Vec<u128>,
}

impl TraitTable {
    /// Structural well-formedness, established once at load time: one
    /// category name and one name table per field, and widths within
    /// capacity.
    pub open spec fn wf(self) -> bool {
        &&& self.categories@.len() == self.schema.widths@.len()
        &&& self.names@.len() == self.schema.widths@.len()
        &&& spec_total_width(self.schema.widths@) <= CAPACITY
    }

    /// Whether the category and name lists line up with the schema.
    pub open spec fn shapes_ok(self) -> bool {
        self.categories@.len() == self.schema.widths@.len() && self.names@.len()
            == self.schema.widths@.len()
    }

    /// Load-time validation: fails fast with `MalformedTable` on a shape
    /// mismatch and `SchemaOverflow` on widths past the capacity; succeeds
    /// exactly on well-formed tables.
    pub fn validate(&self) -> (r: Result<(), GenError>)
        ensures
            r is Ok <==> self.wf(),
            !self.shapes_ok() ==> r is Err && r->Err_0 == GenError::MalformedTable,
            self.shapes_ok() && spec_total_width(self.schema.widths@) > CAPACITY ==> r is Err
                && r->Err_0 == GenError::SchemaOverflow,
    {
        if self.categories.len() != self.schema.len() || self.names.len() != self.schema.len() {
            return Err(GenError::MalformedTable);
        }
        match self.schema.checked_total() {
            Ok(_) => Ok(()),
            Err(e) => Err(e),
        }
    }

    /// The decoded field codes of the token at `index`.
    pub open spec fn spec_codes(self, index: u128) -> Seq<u128> {
        spec_decode(self.packed@[index as int] as nat, self.schema.widths@)
    }

    /// Whether every decoded code of `index` has an entry in its category's
    /// table.
    pub open spec fn codes_valid(self, index: u128) -> bool {
        forall|c: int|
            0 <= c < self.names@.len() ==> (self.spec_codes(index)[c] as int)
                < self.names@[c]@.len()
    }

    /// The trait name for one category code: a pure lookup.
    /// The caller names an existing category; an out-of-table code, and only
    /// that, fails with `UnknownTraitCode`.
    pub fn resolve(&self, category: usize, code: u128) -> (r: Result<String, GenError>)
        requires
            category < self.names@.len(),
        ensures
            (code as int) < self.names@[category as int]@.len() ==> r is Ok && r->Ok_0@
                == self.names@[category as int]@[code as int]@,
            (code as int) >= self.names@[category as int]@.len() ==> r is Err && r->Err_0
                == GenError::UnknownTraitCode,
    {
        let tab = &self.names[category];
        if code >= tab.len() as u128 {
            return Err(GenError::UnknownTraitCode);
        }
        Ok(tab[code as usize].clone())
    }

    /// All decoded trait names of the token at `index`, one per category in
    /// schema order. Fails with `IndexOutOfRange` past the table's length
    /// and `UnknownTraitCode` when a code has no table entry.
    pub fn resolve_all(&self, index: u128) -> (r: Result<Vec<String>, GenError>)
        requires
            self.wf(),
        ensures
            index >= self.packed@.len() ==> r is Err && r->Err_0 == GenError::IndexOutOfRange,
            index < self.packed@.len() && self.codes_valid(index) ==> r is Ok && r->Ok_0@.len()
                == self.names@.len() && (forall|c: int|
                0 <= c < self.names@.len() ==> r->Ok_0@[c]@ == self.names@[c]@[self.spec_codes(
                    index,
                )[c] as int]@),
            index < self.packed@.len() && !self.codes_valid(index) ==> r is Err && r->Err_0
                == GenError::UnknownTraitCode,
    {
        if index >= self.packed.len() as u128 {
            return Err(GenError::IndexOutOfRange);
        }
        let codes = match decode(self.packed[index as usize], &self.schema) {
            Ok(codes) => codes,
            Err(e) => {
                proof {
                    assert(false);
                }
                return Err(e);
            },
        };
        proof {
            crate::codec::lemma_decode_len(
                self.packed@[index as int] as nat,
                self.schema.widths@,
            );
        }
        let mut out: Vec<String> = Vec::new();
        let mut c: usize = 0;
        while c < self.names.len()
            invariant
                self.wf(),
                index < self.packed@.len(),
                codes@ == self.spec_codes(index),
                codes@.len() == self.names@.len(),
                c <= self.names@.len(),
                out@.len() == c,
                forall|k: int|
                    0 <= k < c ==> out@[k]@ == self.names@[k]@[self.spec_codes(index)[k] as int]@,
                forall|k: int|
                    0 <= k < c ==> (self.spec_codes(index)[k] as int) < self.names@[k]@.len(),
            decreases self.names@.len() - c,
        {
            match self.resolve(c, codes[c]) {
                Ok(name) => {
                    out.push(name);
                },
                Err(e) => {
                    return Err(e);
                },
            }
            c = c + 1;
        }
        Ok(out)
    }

    /// The views of the decoded trait names of `index`, one per category.
    pub open spec fn spec_name_views(self, index: u128) -> Seq<Seq<char>> {
        Seq::new(self.names@.len(), |c: int| self.names@[c]@[self.spec_codes(index)[c] as int]@)
    }

    /// The attribute document of the token at `index`: the exposed
    /// categories and their trait names as JSON text. Fails with
    /// `IndexOutOfRange` past the table and `UnknownTraitCode` on a code
    /// with no table entry.
    pub fn get_attributes(&self, index: u128) -> (r: Result<String, GenError>)
        requires
            self.wf(),
        ensures
            index >= self.packed@.len() ==> r is Err && r->Err_0 == GenError::IndexOutOfRange,
            index < self.packed@.len() && self.codes_valid(index) ==> r is Ok && r->Ok_0@
                == spec_attrs_doc(seq_views(self.categories@), self.spec_name_views(index)),
            index < self.packed@.len() && !self.codes_valid(index) ==> r is Err && r->Err_0
                == GenError::UnknownTraitCode,
    {
        let names = match self.resolve_all(index) {
            Ok(names) => names,
            Err(e) => {
                return Err(e);
            },
        };
        let doc = attributes_doc(&self.categories, &names);
        proof {
            assert(seq_views(names@) =~= self.spec_name_views(index));
        }
        Ok(doc)
    }

    /// The composed image document of the token at `index`, drawn from the
    /// template library. Fails with `IndexOutOfRange` past the table,
    /// `UnknownTraitCode` on a code with no table entry, and the
    /// compositor's own failures after that.
    pub fn get_data(&self, index: u128, lib: &TemplateLibrary) -> (r: Result<String, GenError>)
        requires
            self.wf(),
        ensures
            index >= self.packed@.len() ==> r is Err && r->Err_0 == GenError::IndexOutOfRange,
            index < self.packed@.len() && !self.codes_valid(index) ==> r is Err && r->Err_0
                == GenError::UnknownTraitCode,
            index < self.packed@.len() && self.codes_valid(index) ==> (match spec_compose(
                seq_views(self.categories@),
                self.spec_name_views(index),
                lib.entries@,
            ) {
                Result::Ok(doc) => r is Ok && r->Ok_0@ == doc,
                Result::Err(e) => r is Err && r->Err_0 == e,
            }),
    {
        let names = match self.resolve_all(index) {
            Ok(names) => names,
            Err(e) => {
                return Err(e);
            },
        };
        proof {
            assert(seq_views(names@) =~= self.spec_name_views(index));
        }
        lib.compose(&self.categories, &names)
    }
}

} // verus!
