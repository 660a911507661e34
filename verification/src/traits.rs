//! The expansion of a trait: an abstract type that holds any implementation
//! of the trait behind a shared pointer. A trait with no `&mut self` method
//! gets a plain shared pointer; otherwise the abstract type carries a lock
//! flag, and each method of the trait gets a forwarding method that holds the
//! flag for as long as the references it returns live.
use vstd::prelude::*;
use vstd::string::*;
use crate::errors::{error_is, ErrorKind, ExpansionError};
use crate::model::{receiver_of, find_receiver, type_text, ArgModel, TypeModel};
use crate::text::{cat, cat3, cat4, cat5, decimal, decimal_text, join, join_texts, texts};

verus! {

/// A method of a trait: the text of its whole signature, its name, the text
/// of its generic parameters and of its parameters, the parameters themselves
/// and its return type.
pub struct TraitMethodModel {
    pub sig_text: String,
    pub ident: String,
    pub generics: String,
    pub inputs_text: String,
    pub inputs: Vec<ArgModel>,
    pub output: Option<TypeModel>,
}

/// An item of a trait: a method, or anything else.
pub enum TraitItemModel {
    Method(TraitMethodModel),
    Other,
}

/// A trait: the text of its visibility, its name and its items.
pub struct TraitModel {
    pub vis: String,
    pub ident: String,
    pub items: Vec<TraitItemModel>,
}

/// A type in the return type of a trait method: its text (the element of a
/// reference) and whether it is a reference (`Some(mutable)`).
pub struct TypeInMethod {
    pub ty_ts: String,
    pub possible_reference_and_mut: Option<bool>,
}

/// The plain value of a `TypeInMethod`.
pub open spec fn tim_view(t: TypeInMethod) -> (Seq<char>, Option<bool>) {
    (t.ty_ts@, t.possible_reference_and_mut)
}

/// The plain values of a list of `TypeInMethod`.
pub open spec fn tims_view(v: Seq<TypeInMethod>) -> Seq<(Seq<char>, Option<bool>)> {
    v.map_values(|t: TypeInMethod| tim_view(t))
}

/// A type of a return type: a path stands as it is written, a reference by
/// its element; any other type is refused.
pub open spec fn tim_of(t: TypeModel) -> Option<(Seq<char>, Option<bool>)> {
    match t {
        TypeModel::Path { text, .. } => Some((text@, None)),
        TypeModel::Reference { mutable, elem, .. } => Some((type_text(*elem), Some(mutable))),
        _ => None,
    }
}

impl TypeInMethod {
    /// Reads a type of a return type.
    pub fn try_from(value: &TypeModel) -> (r: Result<TypeInMethod, ExpansionError>)
        ensures
            match tim_of(*value) {
                Some(v) => r matches Ok(t) && tim_view(t) == v,
                None => r matches Err(e) && error_is(e, ErrorKind::UnsupportedTraitReturn, seq![]),
            },
    {
        match value {
            TypeModel::Path { text, .. } => Ok(
                TypeInMethod { ty_ts: String::from_str(text.as_str()), possible_reference_and_mut: None },
            ),
            TypeModel::Reference { mutable, elem, .. } => Ok(
                TypeInMethod {
                    ty_ts: String::from_str(elem.text().as_str()),
                    possible_reference_and_mut: Some(*mutable),
                },
            ),
            _ => Err(ExpansionError { kind: ErrorKind::UnsupportedTraitReturn, item: String::new() }),
        }
    }

    /// The type as the forwarding method returns it: a reference becomes a
    /// guard of the trait's flag.
    pub fn get_normalized_return(&self, ident_trait: &str) -> (r: String)
        ensures
            r@ == normalized_return(tim_view(*self), ident_trait@),
    {
        match self.possible_reference_and_mut {
            None => String::from_str(self.ty_ts.as_str()),
            Some(true) => cat4(ident_trait, "MutGuard<", self.ty_ts.as_str(), ">"),
            Some(false) => cat4(ident_trait, "RefGuard<", self.ty_ts.as_str(), ">"),
        }
    }

    /// The type is a shared reference.
    pub fn is_only_ref(&self) -> (r: bool)
        ensures
            r == (self.possible_reference_and_mut == Some(false)),
    {
        match self.possible_reference_and_mut {
            Some(mutable) => !mutable,
            None => false,
        }
    }

    /// The type is a mutable reference.
    pub fn is_ref_mut(&self) -> (r: bool)
        ensures
            r == (self.possible_reference_and_mut == Some(true)),
    {
        match self.possible_reference_and_mut {
            Some(mutable) => mutable,
            None => false,
        }
    }

    /// The name of the flag guard of the type at position `id`.
    pub fn get_ident_flag(id: u8) -> (r: String)
        ensures
            r@ == "flag_"@ + decimal(id as nat),
    {
        let n = decimal_text(id as u64);
        cat("flag_", n.as_str())
    }

    /// The statement that takes the flag for the type at position `id`, when
    /// the type is a reference.
    pub fn get_flag_line(&self, id: u8) -> (r: Option<String>)
        ensures
            opt_view(r) == flag_line(tim_view(*self), id as nat),
    {
        match self.possible_reference_and_mut {
            None => None,
            Some(false) => {
                let flag = Self::get_ident_flag(id);
                Some(cat3("let ", flag.as_str(), " = self.flag.read().unwrap();"))
            },
            Some(true) => {
                let flag = Self::get_ident_flag(id);
                Some(cat3("let ", flag.as_str(), " = self.flag.write().unwrap();"))
            },
        }
    }

    /// The value that the forwarding method returns for this type, from the
    /// variable `ident_variable` of the inner call and the flag guard `flag_ident`.
    pub fn get_variable_for_reply(&self, ident_variable: &str, ident_trait: &str, flag_ident: &str) -> (r:
        String)
        ensures
            r@ == reply_value(tim_view(*self), ident_variable@, ident_trait@, flag_ident@),
    {
        let ty = self.ty_ts.as_str();
        match self.possible_reference_and_mut {
            None => String::from_str(ident_variable),
            Some(true) => {
                let head = cat4(ident_trait, "MutGuard::new(", ident_variable, " as *mut ");
                cat5(head.as_str(), ty, ", ", flag_ident, ")")
            },
            Some(false) => {
                let head = cat4(ident_trait, "RefGuard::new(", ident_variable, " as *const ");
                cat5(head.as_str(), ty, ", ", flag_ident, ")")
            },
        }
    }
}

/// The views of an optional text.
pub open spec fn opt_view(o: Option<String>) -> Option<Seq<char>> {
    match o {
        Some(s) => Some(s@),
        None => None,
    }
}

/// The return type of the forwarding method for a type of the return type.
pub open spec fn normalized_return(t: (Seq<char>, Option<bool>), ident_trait: Seq<char>) -> Seq<char> {
    match t.1 {
        None => t.0,
        Some(true) => ident_trait + "MutGuard<"@ + t.0 + ">"@,
        Some(false) => ident_trait + "RefGuard<"@ + t.0 + ">"@,
    }
}

/// The statement that takes the flag for the type at position `id`.
pub open spec fn flag_line(t: (Seq<char>, Option<bool>), id: nat) -> Option<Seq<char>> {
    match t.1 {
        None => None,
        Some(false) => Some("let "@ + ("flag_"@ + decimal(id)) + " = self.flag.read().unwrap();"@),
        Some(true) => Some("let "@ + ("flag_"@ + decimal(id)) + " = self.flag.write().unwrap();"@),
    }
}

/// The value returned for a type of the return type.
pub open spec fn reply_value(
    t: (Seq<char>, Option<bool>),
    variable: Seq<char>,
    ident_trait: Seq<char>,
    flag: Seq<char>,
) -> Seq<char> {
    match t.1 {
        None => variable,
        Some(true) => ident_trait + "MutGuard::new("@ + variable + " as *mut "@ + t.0 + ", "@ + flag
            + ")"@,
        Some(false) => ident_trait + "RefGuard::new("@ + variable + " as *const "@ + t.0 + ", "@
            + flag + ")"@,
    }
}

/// The types of a tuple's elements, or `None` when one of them is refused.
pub open spec fn tims_of(elems: Seq<TypeModel>) -> Option<Seq<(Seq<char>, Option<bool>)>>
    decreases elems.len(),
{
    if elems.len() == 0 {
        Some(seq![])
    } else {
        match (tims_of(elems.drop_last()), tim_of(elems.last())) {
            (Some(prev), Some(t)) => Some(prev.push(t)),
            _ => None,
        }
    }
}

/// The types of a return type: every element of a tuple, or the one type;
/// none when nothing is returned; `None` when one is refused.
pub open spec fn extract_types(output: Option<TypeModel>) -> Option<Seq<(Seq<char>, Option<bool>)>> {
    match output {
        None => Some(seq![]),
        Some(TypeModel::Tuple { elems, .. }) => tims_of(elems@),
        Some(t) => match tim_of(t) {
            Some(x) => Some(seq![x]),
            None => None,
        },
    }
}

/// Reads the types of the return type of a trait method.
pub fn extract_type_in_methods(output: &Option<TypeModel>) -> (r: Result<
    Vec<TypeInMethod>,
    ExpansionError,
>)
    ensures
        match extract_types(*output) {
            Some(v) => r matches Ok(x) && tims_view(x@) == v,
            None => r matches Err(e) && error_is(e, ErrorKind::UnsupportedTraitReturn, seq![]),
        },
{
    let mut out: Vec<TypeInMethod> = Vec::new();
    match output {
        None => {
            assert(tims_view(out@) =~= seq![]);
            Ok(out)
        },
        Some(TypeModel::Tuple { elems, .. }) => {
            let mut i: usize = 0;
            while i < elems.len()
                invariant
                    i <= elems.len(),
                    *output == Some(TypeModel::Tuple { text: output->0->Tuple_text, elems: *elems }),
                    tims_of(elems@.take(i as int)) == Some(tims_view(out@)),
                decreases elems.len() - i,
            {
                assert(elems@.take(i + 1).drop_last() =~= elems@.take(i as int));
                match TypeInMethod::try_from(&elems[i]) {
                    Ok(t) => {
                        let ghost before = out@;
                        out.push(t);
                        assert(tims_view(out@) =~= tims_view(before).push(tim_view(t)));
                    },
                    Err(e) => {
                        assert(elems@.take(i + 1).last() == elems@[i as int]);
                        assert(tims_of(elems@.take(i + 1)) is None);
                        proof {
                            lemma_tims_of_stays_refused(elems@, i as int + 1);
                        }
                        return Err(e);
                    },
                }
                i = i + 1;
            }
            assert(elems@.take(elems.len() as int) =~= elems@);
            Ok(out)
        },
        Some(t) => match TypeInMethod::try_from(t) {
            Ok(x) => {
                out.push(x);
                assert(tims_view(out@) =~= seq![tim_view(x)]);
                Ok(out)
            },
            Err(e) => Err(e),
        },
    }
}

proof fn lemma_tims_of_stays_refused(elems: Seq<TypeModel>, k: int)
    requires
        0 <= k <= elems.len(),
        tims_of(elems.take(k)) is None,
    ensures
        tims_of(elems) is None,
    decreases elems.len() - k,
{
    if k < elems.len() {
        assert(elems.take(k + 1).drop_last() =~= elems.take(k));
        lemma_tims_of_stays_refused(elems, k + 1);
    } else {
        assert(elems.take(k) =~= elems);
    }
}

/// The number of mutable references among the first `k` types.
pub open spec fn mut_count(ts: Seq<(Seq<char>, Option<bool>)>, k: int) -> nat
    decreases k,
{
    if k <= 0 {
        0
    } else {
        mut_count(ts, k - 1) + if ts[k - 1].1 == Some(true) {
            1nat
        } else {
            0nat
        }
    }
}

/// The number of shared references among the first `k` types.
pub open spec fn ref_count(ts: Seq<(Seq<char>, Option<bool>)>, k: int) -> nat
    decreases k,
{
    if k <= 0 {
        0
    } else {
        ref_count(ts, k - 1) + if ts[k - 1].1 == Some(false) {
            1nat
        } else {
            0nat
        }
    }
}

/// The refusal of a tuple's references: before each element, the elements
/// already seen may hold at most one mutable reference, and no shared
/// reference beside a mutable one.
pub open spec fn refs_refusal_from(ts: Seq<(Seq<char>, Option<bool>)>, k: int) -> Option<ErrorKind>
    decreases ts.len() - k,
{
    if k < 0 || k >= ts.len() {
        None
    } else if mut_count(ts, k) > 1 {
        Some(ErrorKind::MultipleMutableReferences)
    } else if ref_count(ts, k) > 0 && mut_count(ts, k) == 1 {
        Some(ErrorKind::MixedReferences)
    } else {
        refs_refusal_from(ts, k + 1)
    }
}

/// The return type of the forwarding method, or its refusal.
pub open spec fn return_type_plan(ts: Seq<(Seq<char>, Option<bool>)>, ident_trait: Seq<char>) -> Result<
    Seq<char>,
    ErrorKind,
> {
    if ts.len() > 1 {
        match refs_refusal_from(ts, 0) {
            Some(kind) => Err(kind),
            None => Ok(
                "("@ + join(ts.map_values(|t: (Seq<char>, Option<bool>)| normalized_return(t, ident_trait)), ","@)
                    + ")"@,
            ),
        }
    } else if ts.len() == 1 {
        Ok(normalized_return(ts[0], ident_trait))
    } else {
        Ok("()"@)
    }
}

/// The names of the typed parameters whose pattern is an identifier.
pub open spec fn param_names(inputs: Seq<ArgModel>) -> Seq<Seq<char>>
    decreases inputs.len(),
{
    if inputs.len() == 0 {
        seq![]
    } else {
        let prev = param_names(inputs.drop_last());
        match inputs.last() {
            ArgModel::Typed { name: Some(n), .. } => prev.push(n@),
            _ => prev,
        }
    }
}

/// The flag statements of a forwarding method: one per reference of the
/// return type, or, when it returns none, one that takes the flag as the
/// receiver asks.
pub open spec fn flag_lines(ts: Seq<(Seq<char>, Option<bool>)>, receiver: Option<bool>) -> Seq<char> {
    let lines = flag_lines_upto(ts, ts.len() as int);
    if lines.len() == 0 {
        if receiver == Some(true) {
            "let _flag = self.flag.write().unwrap();"@
        } else {
            "let _flag = self.flag.read().unwrap();"@
        }
    } else {
        join(lines, "\n"@)
    }
}

proof fn lemma_no_reference_no_flag_line(ts: Seq<(Seq<char>, Option<bool>)>, k: int)
    requires
        0 <= k <= ts.len(),
        forall|j: int| 0 <= j < ts.len() ==> (#[trigger] ts[j]).1 is None,
    ensures
        flag_lines_upto(ts, k).len() == 0,
    decreases k,
{
    if k > 0 {
        lemma_no_reference_no_flag_line(ts, k - 1);
    }
}

proof fn lemma_first_receiver(inputs: Seq<ArgModel>)
    requires
        inputs.len() > 0,
        inputs[0] is Receiver,
    ensures
        receiver_of(inputs) == Some(inputs[0]->mutable),
    decreases inputs.len(),
{
    if inputs.len() > 1 {
        assert(inputs.drop_last()[0] == inputs[0]);
        lemma_first_receiver(inputs.drop_last());
    } else {
        assert(inputs.drop_last().len() == 0);
        assert(receiver_of(inputs.drop_last()) is None);
        assert(inputs.last() == inputs[0]);
    }
}

/// A forwarding method whose return type holds no reference takes the flag
/// once, for writing when the method's receiver is mutable (`&mut self` or
/// `mut self`) and for reading otherwise: a mutating call never runs beside
/// readers.
pub proof fn lemma_mutating_call_takes_write_flag(
    ts: Seq<(Seq<char>, Option<bool>)>,
    inputs: Seq<ArgModel>,
)
    requires
        forall|j: int| 0 <= j < ts.len() ==> (#[trigger] ts[j]).1 is None,
        inputs.len() > 0,
        inputs[0] is Receiver,
    ensures
        inputs[0]->mutable ==> flag_lines(ts, receiver_of(inputs))
            == "let _flag = self.flag.write().unwrap();"@,
        !inputs[0]->mutable ==> flag_lines(ts, receiver_of(inputs))
            == "let _flag = self.flag.read().unwrap();"@,
{
    lemma_no_reference_no_flag_line(ts, ts.len() as int);
    lemma_first_receiver(inputs);
}

/// The flag statements of the first `k` types; the position counts modulo 256.
pub open spec fn flag_lines_upto(ts: Seq<(Seq<char>, Option<bool>)>, k: int) -> Seq<Seq<char>>
    decreases k,
{
    if k <= 0 {
        seq![]
    } else {
        let prev = flag_lines_upto(ts, k - 1);
        match flag_line(ts[k - 1], ((k - 1) % 256) as nat) {
            Some(l) => prev.push(l),
            None => prev,
        }
    }
}

/// The statement that returns the result of a forwarding method.
pub open spec fn reply_line(ts: Seq<(Seq<char>, Option<bool>)>, ident_trait: Seq<char>) -> Seq<char> {
    if ts.len() > 1 {
        "return ("@ + join(reply_values(ts, ident_trait, ts.len() as int), ","@) + ");"@
    } else if ts.len() == 1 {
        "return "@ + reply_value(ts[0], "reply"@, ident_trait, "flag_0"@) + ";"@
    } else {
        "return reply;"@
    }
}

/// The values returned for the first `k` elements of a tuple.
pub open spec fn reply_values(ts: Seq<(Seq<char>, Option<bool>)>, ident_trait: Seq<char>, k: int) -> Seq<
    Seq<char>,
>
    decreases k,
{
    if k <= 0 {
        seq![]
    } else {
        reply_values(ts, ident_trait, k - 1).push(
            reply_value(
                ts[k - 1],
                "reply."@ + decimal((k - 1) as nat),
                ident_trait,
                "flag_"@ + decimal(((k - 1) % 256) as nat),
            ),
        )
    }
}

/// The forwarding method of a trait method, or its refusal.
pub open spec fn forwarding_method(m: TraitMethodModel, ident_trait: Seq<char>) -> Result<Seq<char>, (ErrorKind, Seq<char>)> {
    match extract_types(m.output) {
        None => Err((ErrorKind::UnsupportedTraitReturn, seq![])),
        Some(ts) => match return_type_plan(ts, ident_trait) {
            Err(kind) => Err((kind, m.sig_text@)),
            Ok(ret) => Ok(
                "pub fn "@ + m.ident@ + m.generics@ + "("@ + m.inputs_text@ + ") -> "@ + ret
                    + " {\n"@ + flag_lines(ts, receiver_of(m.inputs@)) + "\n"@
                    + ("\n let reply = unsafe{ (*self.base)."@ + m.ident@ + ("("@ + join(
                    param_names(m.inputs@),
                    " , "@,
                ) + ")"@) + " };"@) + "\n"@ + reply_line(ts, ident_trait) + "\n}\n"@,
            ),
        },
    }
}

/// A trait method with what the forwarding method needs of it.
pub struct GeneratorMethod {
    pub ident_trait: String,
    pub trait_item_fn: TraitMethodModel,
    pub types_in_method: Vec<TypeInMethod>,
}

impl GeneratorMethod {
    /// The generator of a trait item: `None` for an item that is not a method.
    pub fn possible_new(ident_trait: &str, item_trait: TraitItemModel) -> (r: Result<
        Option<GeneratorMethod>,
        ExpansionError,
    >)
        ensures
            match item_trait {
                TraitItemModel::Method(m) => match extract_types(m.output) {
                    None => r matches Err(e) && error_is(e, ErrorKind::UnsupportedTraitReturn, seq![]),
                    Some(ts) => r matches Ok(Some(g)) && g.ident_trait@ == ident_trait@
                        && g.trait_item_fn == m && tims_view(g.types_in_method@) == ts,
                },
                TraitItemModel::Other => r matches Ok(None),
            },
    {
        match item_trait {
            TraitItemModel::Method(m) => {
                let types_in_method = match extract_type_in_methods(&m.output) {
                    Ok(v) => v,
                    Err(e) => {
                        return Err(e);
                    },
                };
                Ok(
                    Some(
                        GeneratorMethod {
                            ident_trait: String::from_str(ident_trait),
                            trait_item_fn: m,
                            types_in_method,
                        },
                    ),
                )
            },
            TraitItemModel::Other => Ok(None),
        }
    }

    /// The argument list of the inner call: the names of the parameters.
    pub fn transform_fn_args(&self) -> (r: String)
        ensures
            r@ == "("@ + join(param_names(self.trait_item_fn.inputs@), " , "@) + ")"@,
    {
        let inputs = &self.trait_item_fn.inputs;
        let mut names: Vec<String> = Vec::new();
        let mut i: usize = 0;
        while i < inputs.len()
            invariant
                i <= inputs.len(),
                texts(names@) == param_names(inputs@.take(i as int)),
            decreases inputs.len() - i,
        {
            assert(inputs@.take(i + 1).drop_last() =~= inputs@.take(i as int));
            match &inputs[i] {
                ArgModel::Typed { name: Some(n), .. } => {
                    let ghost before = names@;
                    let copy = String::from_str(n.as_str());
                    names.push(copy);
                    assert(texts(names@) =~= texts(before).push(copy@));
                },
                _ => {},
            }
            i = i + 1;
        }
        assert(inputs@.take(inputs.len() as int) =~= inputs@);
        let joined = join_texts(&names, " , ");
        cat3("(", joined.as_str(), ")")
    }

    /// The receiver of the method is `&mut self` or `mut self`.
    pub fn is_self_mutable(trait_item_fn: &TraitMethodModel) -> (r: bool)
        ensures
            r == (receiver_of(trait_item_fn.inputs@) == Some(true)),
    {
        match find_receiver(&trait_item_fn.inputs) {
            Some(mutable) => mutable,
            None => false,
        }
    }

    /// The return type of the forwarding method, or the refusal of a tuple
    /// whose references cannot be held together.
    pub fn return_type_normalizer(&self) -> (r: Result<String, ExpansionError>)
        ensures
            match return_type_plan(tims_view(self.types_in_method@), self.ident_trait@) {
                Err(kind) => r matches Err(e) && error_is(e, kind, self.trait_item_fn.sig_text@),
                Ok(t) => r matches Ok(x) && x@ == t,
            },
    {
        let ts = &self.types_in_method;
        let ghost tv = tims_view(ts@);
        let ident = self.ident_trait.as_str();
        let mut normalized: Vec<String> = Vec::new();
        let mut i: usize = 0;
        while i < ts.len()
            invariant
                i <= ts.len(),
                tv == tims_view(ts@),
                ident@ == self.ident_trait@,
                normalized@.len() == i,
                forall|j: int| 0 <= j < i ==> #[trigger] normalized@[j]@ == normalized_return(tv[j], ident@),
            decreases ts.len() - i,
        {
            let n = ts[i].get_normalized_return(ident);
            normalized.push(n);
            i = i + 1;
        }
        assert(texts(normalized@) =~= tv.map_values(
            |t: (Seq<char>, Option<bool>)| normalized_return(t, ident@),
        ));
        if ts.len() > 1 {
            let mut mut_refs: usize = 0;
            let mut refs: usize = 0;
            let mut k: usize = 0;
            while k < ts.len()
                invariant
                    k <= ts.len(),
                    ts.len() > 1,
                    tv == tims_view(ts@),
                    ts@ == self.types_in_method@,
                    mut_refs == mut_count(tv, k as int),
                    refs == ref_count(tv, k as int),
                    mut_refs <= k,
                    refs <= k,
                    refs_refusal_from(tv, 0) == refs_refusal_from(tv, k as int),
                decreases ts.len() - k,
            {
                if mut_refs > 1 {
                    assert(refs_refusal_from(tv, k as int) == Some(ErrorKind::MultipleMutableReferences));
                    return Err(
                        ExpansionError {
                            kind: ErrorKind::MultipleMutableReferences,
                            item: String::from_str(self.trait_item_fn.sig_text.as_str()),
                        },
                    );
                } else if refs > 0 && mut_refs == 1 {
                    assert(refs_refusal_from(tv, k as int) == Some(ErrorKind::MixedReferences));
                    return Err(
                        ExpansionError {
                            kind: ErrorKind::MixedReferences,
                            item: String::from_str(self.trait_item_fn.sig_text.as_str()),
                        },
                    );
                }
                if ts[k].is_ref_mut() {
                    mut_refs = mut_refs + 1;
                } else if ts[k].is_only_ref() {
                    refs = refs + 1;
                }
                k = k + 1;
            }
            let joined = join_texts(&normalized, ",");
            Ok(cat3("(", joined.as_str(), ")"))
        } else if ts.len() == 1 {
            Ok(String::from_str(normalized[0].as_str()))
        } else {
            Ok(String::from_str("()"))
        }
    }

    /// The statements that take the flag.
    pub fn get_flag_line(&self) -> (r: String)
        ensures
            r@ == flag_lines(
                tims_view(self.types_in_method@),
                receiver_of(self.trait_item_fn.inputs@),
            ),
    {
        let ts = &self.types_in_method;
        let ghost tv = tims_view(ts@);
        let mut lines: Vec<String> = Vec::new();
        let mut i: usize = 0;
        while i < ts.len()
            invariant
                i <= ts.len(),
                tv == tims_view(ts@),
                texts(lines@) == flag_lines_upto(tv, i as int),
            decreases ts.len() - i,
        {
            let id: u8 = (i % 256) as u8;
            match ts[i].get_flag_line(id) {
                Some(l) => {
                    let ghost before = lines@;
                    lines.push(l);
                    assert(texts(lines@) =~= texts(before).push(l@));
                },
                None => {},
            }
            i = i + 1;
        }
        if lines.len() == 0 {
            if Self::is_self_mutable(&self.trait_item_fn) {
                String::from_str("let _flag = self.flag.write().unwrap();")
            } else {
                String::from_str("let _flag = self.flag.read().unwrap();")
            }
        } else {
            join_texts(&lines, "\n")
        }
    }

    /// The statement that calls the method on the inner object.
    pub fn access_base_line(&self) -> (r: String)
        ensures
            r@ == "\n let reply = unsafe{ (*self.base)."@ + self.trait_item_fn.ident@ + ("("@ + join(
                param_names(self.trait_item_fn.inputs@),
                " , "@,
            ) + ")"@) + " };"@,
    {
        let args = self.transform_fn_args();
        cat4(
            "\n let reply = unsafe{ (*self.base).",
            self.trait_item_fn.ident.as_str(),
            args.as_str(),
            " };",
        )
    }

    /// The statement that returns the result.
    pub fn get_reply_line(&self) -> (r: String)
        ensures
            r@ == reply_line(tims_view(self.types_in_method@), self.ident_trait@),
    {
        let ts = &self.types_in_method;
        let ghost tv = tims_view(ts@);
        let ident = self.ident_trait.as_str();
        if ts.len() > 1 {
            let mut values: Vec<String> = Vec::new();
            let mut i: usize = 0;
            while i < ts.len()
                invariant
                    i <= ts.len(),
                    tv == tims_view(ts@),
                    texts(values@) == reply_values(tv, ident@, i as int),
                decreases ts.len() - i,
            {
                let index = decimal_text(i as u64);
                let variable = cat("reply.", index.as_str());
                let flag = TypeInMethod::get_ident_flag((i % 256) as u8);
                let v = ts[i].get_variable_for_reply(variable.as_str(), ident, flag.as_str());
                let ghost before = values@;
                values.push(v);
                assert(texts(values@) =~= texts(before).push(v@));
                i = i + 1;
            }
            let joined = join_texts(&values, ",");
            cat3("return (", joined.as_str(), ");")
        } else if ts.len() == 1 {
            proof {
                reveal_strlit("flag_0");
                reveal_strlit("flag_");
            }
            assert("flag_0"@ == "flag_"@ + decimal(0));
            let v = ts[0].get_variable_for_reply("reply", ident, "flag_0");
            cat3("return ", v.as_str(), ";")
        } else {
            String::from_str("return reply;")
        }
    }

    /// The signature of the forwarding method, public, with its return type
    /// normalized, or the refusal of its return type.
    pub fn extract_fn_signature(&self) -> (r: Result<String, ExpansionError>)
        ensures
            match return_type_plan(tims_view(self.types_in_method@), self.ident_trait@) {
                Err(kind) => r matches Err(e) && error_is(e, kind, self.trait_item_fn.sig_text@),
                Ok(ret) => r matches Ok(x) && x@ == "pub fn "@ + self.trait_item_fn.ident@
                    + self.trait_item_fn.generics@ + "("@ + self.trait_item_fn.inputs_text@
                    + ") -> "@ + ret,
            },
    {
        let ret = match self.return_type_normalizer() {
            Ok(t) => t,
            Err(e) => {
                return Err(e);
            },
        };
        let f = &self.trait_item_fn;
        let mut r = String::from_str("pub fn ");
        r.append(f.ident.as_str());
        r.append(f.generics.as_str());
        r.append("(");
        r.append(f.inputs_text.as_str());
        r.append(") -> ");
        r.append(ret.as_str());
        Ok(r)
    }

    /// The whole forwarding method, or the refusal of its return type.
    pub fn to_tokens(&self) -> (r: Result<String, ExpansionError>)
        ensures
            match return_type_plan(tims_view(self.types_in_method@), self.ident_trait@) {
                Err(kind) => r matches Err(e) && error_is(e, kind, self.trait_item_fn.sig_text@),
                Ok(ret) => r matches Ok(x) && x@ == "pub fn "@ + self.trait_item_fn.ident@
                    + self.trait_item_fn.generics@ + "("@ + self.trait_item_fn.inputs_text@
                    + ") -> "@ + ret + " {\n"@ + flag_lines(
                    tims_view(self.types_in_method@),
                    receiver_of(self.trait_item_fn.inputs@),
                ) + "\n"@ + ("\n let reply = unsafe{ (*self.base)."@ + self.trait_item_fn.ident@
                    + ("("@ + join(param_names(self.trait_item_fn.inputs@), " , "@) + ")"@) + " };"@)
                    + "\n"@ + reply_line(tims_view(self.types_in_method@), self.ident_trait@)
                    + "\n}\n"@,
            },
    {
        let mut r = match self.extract_fn_signature() {
            Ok(t) => t,
            Err(e) => {
                return Err(e);
            },
        };
        let flags = self.get_flag_line();
        let access = self.access_base_line();
        let reply = self.get_reply_line();
        r.append(" {\n");
        r.append(flags.as_str());
        r.append("\n");
        r.append(access.as_str());
        r.append("\n");
        r.append(reply.as_str());
        r.append("\n}\n");
        Ok(r)
    }
}

/// The trait has a method whose receiver is `&mut self` or `mut self`.
pub open spec fn trait_has_mutation(items: Seq<TraitItemModel>) -> bool {
    exists|i: int|
        0 <= i < items.len() && match #[trigger] items[i] {
            TraitItemModel::Method(m) => receiver_of(m.inputs@) == Some(true),
            _ => false,
        }
}

/// Whether the trait has a method with a mutable receiver.
pub fn has_mutation(item_trait: &TraitModel) -> (r: bool)
    ensures
        r == trait_has_mutation(item_trait.items@),
{
    let items = &item_trait.items;
    let mut i: usize = 0;
    while i < items.len()
        invariant
            i <= items.len(),
            items@ == item_trait.items@,
            forall|j: int|
                0 <= j < i ==> match #[trigger] items@[j] {
                    TraitItemModel::Method(m) => receiver_of(m.inputs@) != Some(true),
                    _ => true,
                },
        decreases items.len() - i,
    {
        match &items[i] {
            TraitItemModel::Method(m) => {
                if GeneratorMethod::is_self_mutable(m) {
                    assert(match items@[i as int] {
                        TraitItemModel::Method(m) => receiver_of(m.inputs@) == Some(true),
                        _ => false,
                    });
                    return true;
                }
            },
            _ => {},
        }
        i = i + 1;
    }
    false
}

/// The names that a trait's expansion declares: the abstract type, the read
/// guard and the write guard.
pub open spec fn ident_headers(ident_trait: Seq<char>) -> (Seq<char>, Seq<char>, Seq<char>) {
    (ident_trait + "Abstract"@, ident_trait + "RefGuard"@, ident_trait + "MutGuard"@)
}

/// The names that a trait's expansion declares.
pub fn get_ident_headers(item_trait: &TraitModel) -> (r: (String, String, String))
    ensures
        (r.0@, r.1@, r.2@) == ident_headers(item_trait.ident@),
{
    let t = item_trait.ident.as_str();
    (cat(t, "Abstract"), cat(t, "RefGuard"), cat(t, "MutGuard"))
}

/// The abstract type of a trait with no mutable receiver.
pub open spec fn ref_module_text(t: Seq<char>, a: Seq<char>) -> Seq<char> {
    "use std::{ops::Deref, sync::Arc};\npub struct "@ +
        a +
        " {\n    base: Arc<dyn "@ +
        t +
        ">,\n}\nimpl Deref for "@ +
        a +
        " {\n    type Target = dyn "@ +
        t +
        ";\n    fn deref(&self) -> &Self::Target {\n        self.base.as_ref()\n    }\n}\nimpl AsRef<dyn "@ +
        t +
        " + 'static> for "@ +
        a +
        " {\n    fn as_ref(&self) -> &'static dyn "@ +
        t +
        " {\n        let reply = self.base.as_ref() as *const dyn "@ +
        t +
        ";\n        unsafe{&(*reply)}\n    }\n}\n///Traits Implementations\nimpl<T: "@ +
        t +
        " + 'static> From<T> for "@ +
        a +
        " {\n    fn from(value: T) -> Self {\n        let base = Arc::new(value);\n        let base = base as Arc<dyn "@ +
        t +
        ">;\n        Self {\n            base\n        }\n    }\n}\nimpl Clone for "@ +
        a +
        " {\n    fn clone(&self) -> Self {\n        Self {\n            base: self.base.clone(),\n        }\n    }\n}\nunsafe impl Send for "@ +
        a +
        " {}\nunsafe impl Sync for "@ +
        a +
        " {}\n"@
}

/// The abstract type of a trait with a mutable receiver; `methods` holds its
/// forwarding methods.
pub open spec fn mut_module_text(
    vis: Seq<char>,
    t: Seq<char>,
    a: Seq<char>,
    rg: Seq<char>,
    mg: Seq<char>,
    methods: Seq<char>,
) -> Seq<char> {
    "use std::{\n    any::TypeId,\n    mem::transmute,\n    ops::{Deref, DerefMut},\n    sync::{Arc, PoisonError, RwLock, RwLockReadGuard, RwLockWriteGuard},\n};\n"@ +
        vis +
        " struct "@ +
        a +
        " {\n    flag: Arc<RwLock<TypeId>>,\n    arc_base: Arc<dyn "@ +
        t +
        ">,\n    base: *mut dyn "@ +
        t +
        ",\n}\nimpl "@ +
        a +
        " {\n    #[doc = \"Provides read access to the underlying `"@ +
        t +
        "` implementation.\\nThis method acquires a read lock on the internal flag, ensuring\\nthat the trait object can be accessed safely in a multithreaded context.\\n# Returns\\nA `"@ +
        rg +
        "` that allows read access to the `"@ +
        t +
        "` object.\\n# Panics\\nPanics if the lock is poisoned (i.e., if another thread has panicked\\nwhile holding the lock).\"]\n    pub fn read(&self) -> "@ +
        rg +
        "<dyn "@ +
        t +
        "> {\n        let flag = self.flag.read().unwrap();\n        "@ +
        rg +
        "::new(self.base, flag)\n    }\n    /// Attempts to acquire a read lock on the underlying `#ident_trait ` implementation.\n    ///\n    /// This method attempts to acquire a read lock on the internal flag, ensuring\n    /// that the trait object can be accessed safely in a multithreaded context.\n    /// If the lock is successfully acquired, it returns a `#ident_ref_guard`\n    /// that allows read access to the `#ident_trait ` object. If the lock is poisoned,\n    /// it returns an error.\n    ///\n    /// # Returns\n    ///\n    /// A `Result` containing a `#ident_ref_guard` if the lock is successfully\n    /// acquired, or a `PoisonError` if the lock is poisoned.\n    ///\n    /// # Errors\n    ///\n    /// This method will return an `Err` if the lock is poisoned, i.e., if another\n    /// thread has panicked while holding the lock.\n    ///\n    pub fn try_read(&self) -> Result<"@ +
        rg +
        "<dyn "@ +
        t +
        ">, PoisonError<RwLockReadGuard<TypeId>>> {\n        let possible_flag = self.flag.read();\n        match possible_flag {\n            Ok(flag) => Ok("@ +
        rg +
        "::new(self.base, flag)),\n            Err(err) => Err(err),\n        }\n    }\n    /// Attempts to acquire a write lock on the underlying `#ident_trait ` implementation.\n    ///\n    /// This method attempts to acquire a write lock on the internal flag, ensuring\n    /// that the trait object can be modified safely in a multithreaded context.\n    /// If the lock is successfully acquired, it returns a `#ident_mut_guard`\n    /// that allows to write access to the `#ident_trait ` object. If the lock is poisoned,\n    /// it returns an error.\n    ///\n    /// # Returns\n    ///\n    /// A `Result` containing a `#ident_mut_guard` if the lock is successfully\n    /// acquired, or a `PoisonError` if the lock is poisoned.\n    ///\n    /// # Errors\n    ///\n    /// This method will return an `Err` if the lock is poisoned, i.e., if another\n    /// thread has panicked while holding the lock.\n    ///\n    pub fn try_write(&mut self) -> Result<"@ +
        mg +
        "<dyn "@ +
        t +
        ">, PoisonError<RwLockWriteGuard<TypeId>>> {\n        let possible_flag = self.flag.write();\n        match possible_flag {\n            Ok(flag) => Ok("@ +
        mg +
        "::new(self.base, flag)),\n            Err(err) => Err(err),\n        }\n    }\n    /// Provides write access to the underlying `#ident_trait ` implementation.\n    ///\n    /// This method acquires a write lock on the internal flag, ensuring\n    /// that the trait object can be modified safely in a multithreaded context.\n    ///\n    /// # Returns\n    ///\n    /// A `#ident_mut_guard` that allows to write access to the `#ident_trait ` object.\n    ///\n    /// # Panics\n    ///\n    /// Panics if the lock is poisoned (i.e., if another thread has panicked\n    /// while holding the lock).\n    pub fn write(&mut self) -> "@ +
        mg +
        "<dyn "@ +
        t +
        "> {\n        let flag = self.flag.write().unwrap();\n        "@ +
        mg +
        "::new(self.base, flag)\n    }\n"@ +
        methods +
        "}\n///Traits Implementations\nimpl<T: "@ +
        t +
        " + 'static> From<T> for "@ +
        a +
        " {\n    fn from(value: T) -> Self {\n        let flag = Arc::new(RwLock::new(TypeId::of::<T>()));\n        let arc_base: Arc<dyn "@ +
        t +
        "> = Arc::new(value);\n        let base = arc_base.as_ref() as *const dyn "@ +
        t +
        " as *mut dyn "@ +
        t +
        ";\n        Self {\n            flag,\n            arc_base,\n            base,\n        }\n    }\n}\nimpl Clone for "@ +
        a +
        " {\n    fn clone(&self) -> Self {\n        Self {\n            flag: self.flag.clone(),\n            base: self.base,\n            arc_base: self.arc_base.clone(),\n        }\n    }\n}\nunsafe impl Send for "@ +
        a +
        " {}\nunsafe impl Sync for "@ +
        a +
        " {}\n"@ +
        vis +
        " struct "@ +
        rg +
        "<'a, T : ?Sized> {\n    _guard: RwLockReadGuard<'a, TypeId>,\n    reference: *const T,\n}\nimpl<'a, T : ?Sized> "@ +
        rg +
        "<'a, T> {\n    fn new(ptr: *const T, guard: RwLockReadGuard<'a,TypeId>) -> Self {\n        Self {\n            _guard: guard,\n            reference: ptr,\n        }\n    }\n}\nimpl<'a, T : ?Sized> Deref for "@ +
        rg +
        "<'a, T> {\n    type Target = T;\n    fn deref(&self) -> &Self::Target {\n        unsafe { &*self.reference }\n    }\n}\n"@ +
        vis +
        " struct "@ +
        mg +
        "<'a, T : ?Sized> {\n    _guard: RwLockWriteGuard<'a, TypeId>,\n    reference: *mut T,\n}\nimpl<'a, T : ?Sized> "@ +
        mg +
        "<'a, T> {\n    fn new(ptr: *mut T, guard: RwLockWriteGuard<'a, TypeId>) -> Self {\n        Self {\n            _guard: guard,\n            reference: ptr,\n        }\n    }\n}\nimpl<'a, T : ?Sized> Deref for "@ +
        mg +
        "<'a, T> {\n    type Target = T;\n    fn deref(&self) -> &Self::Target {\n        unsafe { &*self.reference }\n    }\n}\nimpl<'a, T : ?Sized> DerefMut for "@ +
        mg +
        "<'a, T> {\n    fn deref_mut(&mut self) -> &mut Self::Target {\n        unsafe { &mut *self.reference }\n    }\n}\n"@
}

fn fill_ref_module(t: &str, a: &str) -> (r: String)
    ensures
        r@ == ref_module_text(t@, a@),
{
    let mut r = String::new();
    r.append("use std::{ops::Deref, sync::Arc};\npub struct ");
    r.append(a);
    r.append(" {\n    base: Arc<dyn ");
    r.append(t);
    r.append(">,\n}\nimpl Deref for ");
    r.append(a);
    r.append(" {\n    type Target = dyn ");
    r.append(t);
    r.append(";\n    fn deref(&self) -> &Self::Target {\n        self.base.as_ref()\n    }\n}\nimpl AsRef<dyn ");
    r.append(t);
    r.append(" + 'static> for ");
    r.append(a);
    r.append(" {\n    fn as_ref(&self) -> &'static dyn ");
    r.append(t);
    r.append(" {\n        let reply = self.base.as_ref() as *const dyn ");
    r.append(t);
    r.append(";\n        unsafe{&(*reply)}\n    }\n}\n///Traits Implementations\nimpl<T: ");
    r.append(t);
    r.append(" + 'static> From<T> for ");
    r.append(a);
    r.append(" {\n    fn from(value: T) -> Self {\n        let base = Arc::new(value);\n        let base = base as Arc<dyn ");
    r.append(t);
    r.append(">;\n        Self {\n            base\n        }\n    }\n}\nimpl Clone for ");
    r.append(a);
    r.append(" {\n    fn clone(&self) -> Self {\n        Self {\n            base: self.base.clone(),\n        }\n    }\n}\nunsafe impl Send for ");
    r.append(a);
    r.append(" {}\nunsafe impl Sync for ");
    r.append(a);
    r.append(" {}\n");
    r
}

fn fill_mut_module(vis: &str, t: &str, a: &str, rg: &str, mg: &str, methods: &str) -> (r: String)
    ensures
        r@ == mut_module_text(vis@, t@, a@, rg@, mg@, methods@),
{
    let mut r = String::new();
    r.append("use std::{\n    any::TypeId,\n    mem::transmute,\n    ops::{Deref, DerefMut},\n    sync::{Arc, PoisonError, RwLock, RwLockReadGuard, RwLockWriteGuard},\n};\n");
    r.append(vis);
    r.append(" struct ");
    r.append(a);
    r.append(" {\n    flag: Arc<RwLock<TypeId>>,\n    arc_base: Arc<dyn ");
    r.append(t);
    r.append(">,\n    base: *mut dyn ");
    r.append(t);
    r.append(",\n}\nimpl ");
    r.append(a);
    r.append(" {\n    #[doc = \"Provides read access to the underlying `");
    r.append(t);
    r.append("` implementation.\\nThis method acquires a read lock on the internal flag, ensuring\\nthat the trait object can be accessed safely in a multithreaded context.\\n# Returns\\nA `");
    r.append(rg);
    r.append("` that allows read access to the `");
    r.append(t);
    r.append("` object.\\n# Panics\\nPanics if the lock is poisoned (i.e., if another thread has panicked\\nwhile holding the lock).\"]\n    pub fn read(&self) -> ");
    r.append(rg);
    r.append("<dyn ");
    r.append(t);
    r.append("> {\n        let flag = self.flag.read().unwrap();\n        ");
    r.append(rg);
    r.append("::new(self.base, flag)\n    }\n    /// Attempts to acquire a read lock on the underlying `#ident_trait ` implementation.\n    ///\n    /// This method attempts to acquire a read lock on the internal flag, ensuring\n    /// that the trait object can be accessed safely in a multithreaded context.\n    /// If the lock is successfully acquired, it returns a `#ident_ref_guard`\n    /// that allows read access to the `#ident_trait ` object. If the lock is poisoned,\n    /// it returns an error.\n    ///\n    /// # Returns\n    ///\n    /// A `Result` containing a `#ident_ref_guard` if the lock is successfully\n    /// acquired, or a `PoisonError` if the lock is poisoned.\n    ///\n    /// # Errors\n    ///\n    /// This method will return an `Err` if the lock is poisoned, i.e., if another\n    /// thread has panicked while holding the lock.\n    ///\n    pub fn try_read(&self) -> Result<");
    r.append(rg);
    r.append("<dyn ");
    r.append(t);
    r.append(">, PoisonError<RwLockReadGuard<TypeId>>> {\n        let possible_flag = self.flag.read();\n        match possible_flag {\n            Ok(flag) => Ok(");
    r.append(rg);
    r.append("::new(self.base, flag)),\n            Err(err) => Err(err),\n        }\n    }\n    /// Attempts to acquire a write lock on the underlying `#ident_trait ` implementation.\n    ///\n    /// This method attempts to acquire a write lock on the internal flag, ensuring\n    /// that the trait object can be modified safely in a multithreaded context.\n    /// If the lock is successfully acquired, it returns a `#ident_mut_guard`\n    /// that allows to write access to the `#ident_trait ` object. If the lock is poisoned,\n    /// it returns an error.\n    ///\n    /// # Returns\n    ///\n    /// A `Result` containing a `#ident_mut_guard` if the lock is successfully\n    /// acquired, or a `PoisonError` if the lock is poisoned.\n    ///\n    /// # Errors\n    ///\n    /// This method will return an `Err` if the lock is poisoned, i.e., if another\n    /// thread has panicked while holding the lock.\n    ///\n    pub fn try_write(&mut self) -> Result<");
    r.append(mg);
    r.append("<dyn ");
    r.append(t);
    r.append(">, PoisonError<RwLockWriteGuard<TypeId>>> {\n        let possible_flag = self.flag.write();\n        match possible_flag {\n            Ok(flag) => Ok(");
    r.append(mg);
    r.append("::new(self.base, flag)),\n            Err(err) => Err(err),\n        }\n    }\n    /// Provides write access to the underlying `#ident_trait ` implementation.\n    ///\n    /// This method acquires a write lock on the internal flag, ensuring\n    /// that the trait object can be modified safely in a multithreaded context.\n    ///\n    /// # Returns\n    ///\n    /// A `#ident_mut_guard` that allows to write access to the `#ident_trait ` object.\n    ///\n    /// # Panics\n    ///\n    /// Panics if the lock is poisoned (i.e., if another thread has panicked\n    /// while holding the lock).\n    pub fn write(&mut self) -> ");
    r.append(mg);
    r.append("<dyn ");
    r.append(t);
    r.append("> {\n        let flag = self.flag.write().unwrap();\n        ");
    r.append(mg);
    r.append("::new(self.base, flag)\n    }\n");
    r.append(methods);
    r.append("}\n///Traits Implementations\nimpl<T: ");
    r.append(t);
    r.append(" + 'static> From<T> for ");
    r.append(a);
    r.append(" {\n    fn from(value: T) -> Self {\n        let flag = Arc::new(RwLock::new(TypeId::of::<T>()));\n        let arc_base: Arc<dyn ");
    r.append(t);
    r.append("> = Arc::new(value);\n        let base = arc_base.as_ref() as *const dyn ");
    r.append(t);
    r.append(" as *mut dyn ");
    r.append(t);
    r.append(";\n        Self {\n            flag,\n            arc_base,\n            base,\n        }\n    }\n}\nimpl Clone for ");
    r.append(a);
    r.append(" {\n    fn clone(&self) -> Self {\n        Self {\n            flag: self.flag.clone(),\n            base: self.base,\n            arc_base: self.arc_base.clone(),\n        }\n    }\n}\nunsafe impl Send for ");
    r.append(a);
    r.append(" {}\nunsafe impl Sync for ");
    r.append(a);
    r.append(" {}\n");
    r.append(vis);
    r.append(" struct ");
    r.append(rg);
    r.append("<'a, T : ?Sized> {\n    _guard: RwLockReadGuard<'a, TypeId>,\n    reference: *const T,\n}\nimpl<'a, T : ?Sized> ");
    r.append(rg);
    r.append("<'a, T> {\n    fn new(ptr: *const T, guard: RwLockReadGuard<'a,TypeId>) -> Self {\n        Self {\n            _guard: guard,\n            reference: ptr,\n        }\n    }\n}\nimpl<'a, T : ?Sized> Deref for ");
    r.append(rg);
    r.append("<'a, T> {\n    type Target = T;\n    fn deref(&self) -> &Self::Target {\n        unsafe { &*self.reference }\n    }\n}\n");
    r.append(vis);
    r.append(" struct ");
    r.append(mg);
    r.append("<'a, T : ?Sized> {\n    _guard: RwLockWriteGuard<'a, TypeId>,\n    reference: *mut T,\n}\nimpl<'a, T : ?Sized> ");
    r.append(mg);
    r.append("<'a, T> {\n    fn new(ptr: *mut T, guard: RwLockWriteGuard<'a, TypeId>) -> Self {\n        Self {\n            _guard: guard,\n            reference: ptr,\n        }\n    }\n}\nimpl<'a, T : ?Sized> Deref for ");
    r.append(mg);
    r.append("<'a, T> {\n    type Target = T;\n    fn deref(&self) -> &Self::Target {\n        unsafe { &*self.reference }\n    }\n}\nimpl<'a, T : ?Sized> DerefMut for ");
    r.append(mg);
    r.append("<'a, T> {\n    fn deref_mut(&mut self) -> &mut Self::Target {\n        unsafe { &mut *self.reference }\n    }\n}\n");
    r
}

/// The abstract type of a trait with no mutable receiver.
pub fn ref_abstract_module(item_trait: &TraitModel) -> (r: String)
    ensures
        r@ == ref_module_text(item_trait.ident@, ident_headers(item_trait.ident@).0),
{
    let (a, _, _) = get_ident_headers(item_trait);
    fill_ref_module(item_trait.ident.as_str(), a.as_str())
}

/// The forwarding methods of the first `k` items, or the first refusal.
pub open spec fn access_methods_upto(items: Seq<TraitItemModel>, ident_trait: Seq<char>, k: int) -> Result<
    Seq<char>,
    (ErrorKind, Seq<char>),
>
    decreases k,
{
    if k <= 0 {
        Ok(seq![])
    } else {
        match access_methods_upto(items, ident_trait, k - 1) {
            Err(e) => Err(e),
            Ok(prev) => match items[k - 1] {
                TraitItemModel::Method(m) => match forwarding_method(m, ident_trait) {
                    Err(e) => Err(e),
                    Ok(text) => Ok(prev + text),
                },
                TraitItemModel::Other => Ok(prev),
            },
        }
    }
}

proof fn lemma_access_methods_stay_refused(
    items: Seq<TraitItemModel>,
    ident_trait: Seq<char>,
    k: int,
    n: int,
)
    requires
        0 <= k <= n,
        access_methods_upto(items, ident_trait, k) is Err,
    ensures
        access_methods_upto(items, ident_trait, n) == access_methods_upto(items, ident_trait, k),
    decreases n - k,
{
    if k < n {
        lemma_access_methods_stay_refused(items, ident_trait, k + 1, n);
    }
}

/// The forwarding methods of every method of the trait, in order.
pub fn access_methods(item_trait: TraitModel) -> (r: Result<String, ExpansionError>)
    ensures
        match access_methods_upto(item_trait.items@, item_trait.ident@, item_trait.items@.len() as int) {
            Err((kind, item)) => r matches Err(e) && error_is(e, kind, item),
            Ok(text) => r matches Ok(x) && x@ == text,
        },
{
    let ident = item_trait.ident;
    let mut items = item_trait.items;
    let ghost all = items@;
    let n = items.len();
    let mut out = String::new();
    let mut i: usize = 0;
    let mut rest: Vec<TraitItemModel> = Vec::new();
    while items.len() > 0
        invariant
            all.len() == n,
            all == item_trait.items@,
            ident@ == item_trait.ident@,
            i + items.len() == n,
            items@ == all.subrange(i as int, n as int),
            access_methods_upto(all, ident@, i as int) == Ok::<Seq<char>, (ErrorKind, Seq<char>)>(out@),
        decreases items.len(),
    {
        let item = items.remove(0);
        assert(item == all[i as int]);
        match GeneratorMethod::possible_new(ident.as_str(), item) {
            Err(e) => {
                assert(access_methods_upto(all, ident@, i + 1) is Err);
                proof {
                    lemma_access_methods_stay_refused(all, ident@, i + 1, n as int);
                }
                return Err(e);
            },
            Ok(None) => {},
            Ok(Some(g)) => match g.to_tokens() {
                Err(e) => {
                    assert(access_methods_upto(all, ident@, i + 1) is Err);
                    proof {
                        lemma_access_methods_stay_refused(all, ident@, i + 1, n as int);
                    }
                    return Err(e);
                },
                Ok(text) => {
                    out.append(text.as_str());
                },
            },
        }
        i = i + 1;
    }
    Ok(out)
}

/// The abstract type of a trait with a mutable receiver, with the
/// forwarding methods of its methods.
pub fn mut_abstract_module(item_trait: TraitModel) -> (r: Result<String, ExpansionError>)
    ensures
        match access_methods_upto(item_trait.items@, item_trait.ident@, item_trait.items@.len() as int) {
            Err((kind, item)) => r matches Err(e) && error_is(e, kind, item),
            Ok(methods) => r matches Ok(x) && x@ == mut_module_text(
                item_trait.vis@,
                item_trait.ident@,
                ident_headers(item_trait.ident@).0,
                ident_headers(item_trait.ident@).1,
                ident_headers(item_trait.ident@).2,
                methods,
            ),
        },
{
    let (a, rg, mg) = get_ident_headers(&item_trait);
    let vis = String::from_str(item_trait.vis.as_str());
    let t = String::from_str(item_trait.ident.as_str());
    let methods = match access_methods(item_trait) {
        Ok(m) => m,
        Err(e) => {
            return Err(e);
        },
    };
    Ok(fill_mut_module(vis.as_str(), t.as_str(), a.as_str(), rg.as_str(), mg.as_str(), methods.as_str()))
}

/// The abstract type that the expansion of a trait adds after the trait.
pub open spec fn trait_expansion(item_trait: TraitModel) -> Result<Seq<char>, (ErrorKind, Seq<char>)> {
    let t = item_trait.ident@;
    let (a, rg, mg) = ident_headers(t);
    if !trait_has_mutation(item_trait.items@) {
        Ok(ref_module_text(t, a))
    } else {
        match access_methods_upto(item_trait.items@, t, item_trait.items@.len() as int) {
            Err(e) => Err(e),
            Ok(methods) => Ok(mut_module_text(item_trait.vis@, t, a, rg, mg, methods)),
        }
    }
}

/// Expands a trait: the code that follows the trait itself, or the refusal
/// of one of its methods.
pub fn expansion(item_trait: TraitModel) -> (r: Result<String, ExpansionError>)
    ensures
        match trait_expansion(item_trait) {
            Err((kind, item)) => r matches Err(e) && error_is(e, kind, item),
            Ok(text) => r matches Ok(x) && x@ == text,
        },
{
    if !has_mutation(&item_trait) {
        Ok(ref_abstract_module(&item_trait))
    } else {
        mut_abstract_module(item_trait)
    }
}

} // verus!
