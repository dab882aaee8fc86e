//! Structural validation of a transition implementation's call signature.
//!
//! A transition's implementation is a callable supplied by a build-definition
//! file. Before a transition is declared, the implementation's signature is
//! checked against the shape the configuration-resolution engine will call it
//! with: named, required `platform` and `refs` arguments, a named `attrs`
//! argument when attribute capture is enabled, and a return type that is a
//! single configuration (non-split) or a string-keyed mapping of
//! configurations (split).
//!
//! The scripting runtime's type of a value is modelled here by what the
//! validator reads of it: whether the value is callable, its named
//! parameters (name, required-ness, type) and its return type.

use vstd::prelude::*;

verus! {

/// A scripting-runtime type, as far as signature validation reads it.
///
/// `Any` is the type of unannotated values; it is compatible with every
/// type, as in the runtime's gradual type check. All concrete types other
/// than the three the validator cares about are collapsed into `Other`,
/// which is compatible with none of them.
#[derive(Debug, Clone, Copy, PartialEq, Eq, Structural)]
pub enum StarlarkType {
    /// A platform configuration result.
    Configuration,
    /// A struct value (the shape of the `refs` and `attrs` arguments).
    Struct,
    /// A string-keyed mapping of platform configuration results.
    ConfigurationDict,
    /// The dynamic type: compatible with everything.
    Any,
    /// Any other concrete type: compatible with none of the above.
    Other,
}

/// Whether a value of type `from` may flow where type `to` is expected.
pub open spec fn assignable(from: StarlarkType, to: StarlarkType) -> bool {
    from == StarlarkType::Any || to == StarlarkType::Any || from == to
}

/// Exec mirror of [`assignable`].
pub fn assignable_types(from: StarlarkType, to: StarlarkType) -> (r: bool)
    ensures
        r == assignable(from, to),
{
    from == StarlarkType::Any || to == StarlarkType::Any || from == to
}

/// One named parameter of a callable's signature.
#[derive(Debug)]
pub struct Parameter {
    pub name: String,
    pub required: bool,
    pub ty: StarlarkType,
}

/// Ghost model of a [`Parameter`].
pub struct ParameterModel {
    pub name: Seq<char>,
    pub required: bool,
    pub ty: StarlarkType,
}

impl View for Parameter {
    type V = ParameterModel;

    open spec fn view(&self) -> ParameterModel {
        ParameterModel { name: self.name@, required: self.required, ty: self.ty }
    }
}

impl DeepView for Parameter {
    type V = ParameterModel;

    open spec fn deep_view(&self) -> ParameterModel {
        self.view()
    }
}

impl Clone for Parameter {
    fn clone(&self) -> (r: Self)
        ensures
            r@ == self@,
    {
        Parameter { name: self.name.clone(), required: self.required, ty: self.ty }
    }
}

/// The call signature of a callable value: its named parameters, in
/// declaration order, and its return type.
///
/// The expected shape is named-only, so the model keeps only named
/// parameters; a callable whose signature cannot take the expected named
/// call is modelled by parameters that do not match it.
#[derive(Debug)]
pub struct CallableSignature {
    pub params: Vec<Parameter>,
    pub ret: StarlarkType,
}

/// Ghost model of a [`CallableSignature`].
pub struct SignatureModel {
    pub params: Seq<ParameterModel>,
    pub ret: StarlarkType,
}

impl View for CallableSignature {
    type V = SignatureModel;

    open spec fn view(&self) -> SignatureModel {
        SignatureModel { params: self.params.deep_view(), ret: self.ret }
    }
}

impl Clone for CallableSignature {
    fn clone(&self) -> (r: Self)
        ensures
            r@ == self@,
    {
        let r = CallableSignature { params: self.params.clone(), ret: self.ret };
        proof {
            assert(r@.params =~= self@.params);
        }
        r
    }
}

/// The type of a transition's implementation value, as far as the validator
/// reads it: its call signature if the value is callable at all.
#[derive(Debug)]
pub struct Implementation {
    pub signature: Option<CallableSignature>,
}

impl View for Implementation {
    type V = Option<SignatureModel>;

    open spec fn view(&self) -> Option<SignatureModel> {
        match self.signature {
            Option::None => Option::None,
            Option::Some(sig) => Option::Some(sig@),
        }
    }
}

impl DeepView for Implementation {
    type V = Option<SignatureModel>;

    open spec fn deep_view(&self) -> Option<SignatureModel> {
        self.view()
    }
}

impl Clone for Implementation {
    fn clone(&self) -> (r: Self)
        ensures
            r@ == self@,
    {
        match &self.signature {
            Option::None => Implementation { signature: Option::None },
            Option::Some(sig) => Implementation { signature: Option::Some(sig.clone()) },
        }
    }
}

/// The named arguments the resolution engine will call the implementation
/// with: `platform` and `refs` always, `attrs` only when attribute capture
/// is enabled. All are required in the expected shape.
pub open spec fn expected_arguments(attrs_enabled: bool) -> Seq<ParameterModel> {
    let base = seq![
        ParameterModel { name: "platform"@, required: true, ty: StarlarkType::Configuration },
        ParameterModel { name: "refs"@, required: true, ty: StarlarkType::Struct },
    ];
    if attrs_enabled {
        base.push(ParameterModel { name: "attrs"@, required: true, ty: StarlarkType::Struct })
    } else {
        base
    }
}

/// The expected return type: one configuration for a non-split transition, a
/// string-keyed mapping of configurations for a split one.
pub open spec fn expected_return(split: bool) -> StarlarkType {
    if split {
        StarlarkType::ConfigurationDict
    } else {
        StarlarkType::Configuration
    }
}

/// The full expected signature, as embedded in a mismatch report.
pub open spec fn expected_signature(attrs_enabled: bool, split: bool) -> SignatureModel {
    SignatureModel { params: expected_arguments(attrs_enabled), ret: expected_return(split) }
}

/// Whether a callable with parameters `params` accepts a named argument
/// `name` of type `ty`: the first parameter of that name exists and its type
/// accepts the argument.
#[verifier::opaque]
pub open spec fn accepts_argument(
    params: Seq<ParameterModel>,
    name: Seq<char>,
    ty: StarlarkType,
) -> bool {
    exists|j: int|
        0 <= j < params.len() && params[j].name == name && (forall|k: int|
            0 <= k < j ==> params[k].name != name) && assignable(ty, params[j].ty)
}

/// Whether a callable signature is structurally compatible with the expected
/// shape for the given attribute-capture and split flags: every expected
/// named argument is accepted, every required parameter of the callable is
/// supplied by an expected argument, and the return type is compatible.
#[verifier::opaque]
pub open spec fn signature_accepts(sig: SignatureModel, attrs_enabled: bool, split: bool) -> bool {
    let expected = expected_arguments(attrs_enabled);
    &&& forall|i: int|
        0 <= i < expected.len() ==> accepts_argument(sig.params, expected[i].name, expected[i].ty)
    &&& forall|j: int|
        0 <= j < sig.params.len() && sig.params[j].required ==> exists|i: int|
            0 <= i < expected.len() && expected[i].name == sig.params[j].name
    &&& assignable(sig.ret, expected_return(split))
}

/// Whether an implementation value passes validation: it is callable and its
/// signature is compatible with the expected shape.
pub open spec fn implementation_accepted(
    implementation: Option<SignatureModel>,
    attrs_enabled: bool,
    split: bool,
) -> bool {
    implementation matches Option::Some(sig) && signature_accepts(sig, attrs_enabled, split)
}

/// If some expected argument is not accepted, the signature is not
/// compatible.
proof fn lemma_rejected_by_argument(sig: SignatureModel, attrs_enabled: bool, split: bool, i: int)
    requires
        0 <= i < expected_arguments(attrs_enabled).len(),
        !accepts_argument(
            sig.params,
            expected_arguments(attrs_enabled)[i].name,
            expected_arguments(attrs_enabled)[i].ty,
        ),
    ensures
        !signature_accepts(sig, attrs_enabled, split),
{
    reveal(signature_accepts);
}

/// If some required parameter of the callable is not supplied by an expected
/// argument, the signature is not compatible.
proof fn lemma_rejected_by_required(sig: SignatureModel, attrs_enabled: bool, split: bool, j: int)
    requires
        0 <= j < sig.params.len(),
        sig.params[j].required,
        !(exists|i: int|
            0 <= i < expected_arguments(attrs_enabled).len() && expected_arguments(
                attrs_enabled,
            )[i].name == sig.params[j].name),
    ensures
        !signature_accepts(sig, attrs_enabled, split),
{
    reveal(signature_accepts);
}

/// If the return type is incompatible, the signature is not compatible.
proof fn lemma_rejected_by_return(sig: SignatureModel, attrs_enabled: bool, split: bool)
    requires
        !assignable(sig.ret, expected_return(split)),
    ensures
        !signature_accepts(sig, attrs_enabled, split),
{
    reveal(signature_accepts);
}

/// If all three structural conditions hold, the signature is compatible.
proof fn lemma_accepted(sig: SignatureModel, attrs_enabled: bool, split: bool)
    requires
        forall|i: int|
            0 <= i < expected_arguments(attrs_enabled).len() ==> accepts_argument(
                sig.params,
                expected_arguments(attrs_enabled)[i].name,
                expected_arguments(attrs_enabled)[i].ty,
            ),
        forall|j: int|
            0 <= j < sig.params.len() && sig.params[j].required ==> exists|i: int|
                0 <= i < expected_arguments(attrs_enabled).len() && expected_arguments(
                    attrs_enabled,
                )[i].name == sig.params[j].name,
        assignable(sig.ret, expected_return(split)),
    ensures
        signature_accepts(sig, attrs_enabled, split),
{
    reveal(signature_accepts);
}

/// A failed validation, carrying the expected signature and the
/// implementation's actual type for diagnostics.
#[derive(Debug)]
pub struct SignatureMismatch {
    pub expected: CallableSignature,
    pub actual: Implementation,
}

/// The rendered form of a modelled type.
pub open spec fn type_text(t: StarlarkType) -> Seq<char> {
    match t {
        StarlarkType::Configuration => "Configuration"@,
        StarlarkType::Struct => "Struct"@,
        StarlarkType::ConfigurationDict => "dict[str, Configuration]"@,
        StarlarkType::Any => "Any"@,
        StarlarkType::Other => "<other>"@,
    }
}

/// The rendered form of one parameter: its name, `?` when optional, and its
/// type.
pub open spec fn param_text(p: ParameterModel) -> Seq<char> {
    (if p.required {
        p.name
    } else {
        p.name + "?"@
    }) + ": "@ + type_text(p.ty)
}

/// The rendered, comma-separated parameter list.
pub open spec fn params_text(params: Seq<ParameterModel>) -> Seq<char>
    decreases params.len(),
{
    if params.len() == 0 {
        Seq::empty()
    } else if params.len() == 1 {
        param_text(params[0])
    } else {
        params_text(params.drop_last()) + ", "@ + param_text(params.last())
    }
}

/// The rendered form of a whole callable signature.
pub open spec fn signature_text(sig: SignatureModel) -> Seq<char> {
    "("@ + params_text(sig.params) + ") -> "@ + type_text(sig.ret)
}

/// The rendered form of an implementation's type.
pub open spec fn implementation_text(t: Option<SignatureModel>) -> Seq<char> {
    match t {
        Option::Some(sig) => signature_text(sig),
        Option::None => "not a callable"@,
    }
}

/// The full diagnostic a signature mismatch renders to: the expected
/// signature and the implementation's actual type, side by side.
pub open spec fn mismatch_text(expected: SignatureModel, actual: Option<SignatureModel>) -> Seq<
    char,
> {
    "transition(impl=) must be a function matching signature `"@ + signature_text(expected)
        + "`, got: `"@ + implementation_text(actual) + "`"@
}

/// The rendered form of a modelled type, as text.
fn type_label(t: StarlarkType) -> (r: &'static str)
    ensures
        r@ == type_text(t),
{
    match t {
        StarlarkType::Configuration => "Configuration",
        StarlarkType::Struct => "Struct",
        StarlarkType::ConfigurationDict => "dict[str, Configuration]",
        StarlarkType::Any => "Any",
        StarlarkType::Other => "<other>",
    }
}

/// Append one rendered parameter.
fn append_param(out: &mut String, p: &Parameter)
    ensures
        final(out)@ == old(out)@ + param_text(p@),
{
    let ghost entry = out@;
    out.append(p.name.as_str());
    if !p.required {
        out.append("?");
    }
    out.append(": ");
    out.append(type_label(p.ty));
    proof {
        assert(out@ =~= entry + param_text(p@));
    }
}

/// Append one rendered callable signature.
#[verifier::loop_isolation(false)]
fn append_signature(out: &mut String, sig: &CallableSignature)
    ensures
        final(out)@ == old(out)@ + signature_text(sig@),
{
    let ghost entry = out@;
    let ghost pv = sig.params.deep_view();
    out.append("(");
    proof {
        assert(pv.take(0) =~= Seq::<ParameterModel>::empty());
        assert(out@ =~= entry + "("@ + params_text(pv.take(0)));
    }
    let mut i: usize = 0;
    while i < sig.params.len()
        invariant
            i <= sig.params.len(),
            pv == sig.params.deep_view(),
            out@ == entry + "("@ + params_text(pv.take(i as int)),
        decreases sig.params.len() - i,
    {
        if i > 0 {
            out.append(", ");
        }
        append_param(out, &sig.params[i]);
        proof {
            assert(pv.take(i as int + 1).drop_last() =~= pv.take(i as int));
            assert(pv.take(i as int + 1).last() == pv[i as int]);
            if i == 0 {
                assert(params_text(pv.take(1)) == param_text(pv[0]));
            } else {
                assert(params_text(pv.take(i as int + 1)) == params_text(pv.take(i as int))
                    + ", "@ + param_text(pv[i as int]));
            }
            assert(out@ =~= entry + "("@ + params_text(pv.take(i as int + 1)));
        }
        i += 1;
    }
    out.append(") -> ");
    out.append(type_label(sig.ret));
    proof {
        assert(pv.take(sig.params.len() as int) =~= pv);
        assert(out@ =~= entry + signature_text(sig@));
    }
}

impl SignatureMismatch {
    /// Render the diagnostic: the expected signature and the actual type,
    /// side by side, as the declaration surfaces it to a rule author.
    pub fn render(&self) -> (r: String)
        ensures
            r@ == mismatch_text(self.expected@, self.actual@),
    {
        let mut out = String::from_str(
            "transition(impl=) must be a function matching signature `",
        );
        append_signature(&mut out, &self.expected);
        out.append("`, got: `");
        match &self.actual.signature {
            Option::Some(sig) => append_signature(&mut out, sig),
            Option::None => out.append("not a callable"),
        }
        out.append("`");
        proof {
            assert(out@ =~= mismatch_text(self.expected@, self.actual@));
        }
        out
    }
}

/// Scan `params` for the first parameter named `name`.
fn find_parameter(params: &Vec<Parameter>, name: &String) -> (r: Option<usize>)
    ensures
        match r {
            Option::Some(j) => j < params.len() && params.deep_view()[j as int].name == name@
                && (forall|k: int| 0 <= k < j ==> params.deep_view()[k].name != name@),
            Option::None => forall|k: int|
                0 <= k < params.len() ==> params.deep_view()[k].name != name@,
        },
{
    let mut i: usize = 0;
    while i < params.len()
        invariant
            i <= params.len(),
            forall|k: int| 0 <= k < i ==> params.deep_view()[k].name != name@,
        decreases params.len() - i,
    {
        if params[i].name.eq(name) {
            return Option::Some(i);
        }
        i += 1;
    }
    Option::None
}

/// Exec mirror of [`accepts_argument`].
fn argument_accepted(params: &Vec<Parameter>, name: &String, ty: StarlarkType) -> (r: bool)
    ensures
        r == accepts_argument(params.deep_view(), name@, ty),
{
    match find_parameter(params, name) {
        Option::Some(j) => {
            let ok = assignable_types(ty, params[j].ty);
            proof {
                reveal(accepts_argument);
                if ok {
                    assert(accepts_argument(params.deep_view(), name@, ty)) by {
                        let jj = j as int;
                        assert(params.deep_view()[jj].name == name@ && (forall|k: int|
                            0 <= k < jj ==> params.deep_view()[k].name != name@) && assignable(
                            ty,
                            params.deep_view()[jj].ty,
                        ));
                    }
                } else {
                    assert(!accepts_argument(params.deep_view(), name@, ty)) by {
                        if exists|j2: int|
                            0 <= j2 < params.deep_view().len() && params.deep_view()[j2].name
                                == name@ && (forall|k: int|
                                0 <= k < j2 ==> params.deep_view()[k].name != name@) && assignable(
                                ty,
                                params.deep_view()[j2].ty,
                            ) {
                            let j2 = choose|j2: int|
                                0 <= j2 < params.deep_view().len() && params.deep_view()[j2].name
                                    == name@ && (forall|k: int|
                                    0 <= k < j2 ==> params.deep_view()[k].name != name@)
                                    && assignable(ty, params.deep_view()[j2].ty);
                            // Both j and j2 are first occurrences of the name, so they agree.
                            assert(j2 == j as int);
                        }
                    }
                }
            }
            ok
        },
        Option::None => {
            proof {
                reveal(accepts_argument);
                assert(!accepts_argument(params.deep_view(), name@, ty));
            }
            false
        },
    }
}

/// Whether `name` names one of the parameters in `expected`.
fn name_among(expected: &Vec<Parameter>, name: &String) -> (r: bool)
    ensures
        r == exists|i: int|
            0 <= i < expected.deep_view().len() && expected.deep_view()[i].name == name@,
{
    let found = find_parameter(expected, name);
    proof {
        match found {
            Option::Some(j) => {
                assert(expected.deep_view()[j as int].name == name@);
            },
            Option::None => {},
        }
    }
    found.is_some()
}

/// The documented parameter shape of a transition implementation: required
/// `platform` and `refs`, optional `attrs`.
pub open spec fn documented_parameters() -> Seq<ParameterModel> {
    seq![
        ParameterModel { name: "platform"@, required: true, ty: StarlarkType::Configuration },
        ParameterModel { name: "refs"@, required: true, ty: StarlarkType::Struct },
        ParameterModel { name: "attrs"@, required: false, ty: StarlarkType::Struct },
    ]
}

/// The parameter shape a transition implementation is documented with.
pub struct TransitionImplParams;

impl TransitionImplParams {
    /// Build the documented parameter list: `platform` and `refs` required,
    /// `attrs` optional.
    pub fn params() -> (r: Vec<Parameter>)
        ensures
            r.deep_view() == documented_parameters(),
    {
        let mut v: Vec<Parameter> = Vec::new();
        v.push(
            Parameter {
                name: String::from_str("platform"),
                required: true,
                ty: StarlarkType::Configuration,
            },
        );
        v.push(
            Parameter { name: String::from_str("refs"), required: true, ty: StarlarkType::Struct },
        );
        v.push(
            Parameter { name: String::from_str("attrs"), required: false, ty: StarlarkType::Struct },
        );
        proof {
            assert(v.deep_view() =~= documented_parameters());
        }
        v
    }
}

/// Build the expected parameter list for validation: `platform` and `refs`,
/// plus `attrs` when attribute capture is enabled, all required.
fn expected_parameter_list(attrs_enabled: bool) -> (r: Vec<Parameter>)
    ensures
        r.deep_view() == expected_arguments(attrs_enabled),
{
    let mut v: Vec<Parameter> = Vec::new();
    v.push(
        Parameter {
            name: String::from_str("platform"),
            required: true,
            ty: StarlarkType::Configuration,
        },
    );
    v.push(Parameter { name: String::from_str("refs"), required: true, ty: StarlarkType::Struct });
    if attrs_enabled {
        v.push(
            Parameter { name: String::from_str("attrs"), required: true, ty: StarlarkType::Struct },
        );
    }
    proof {
        assert(v.deep_view() =~= expected_arguments(attrs_enabled));
    }
    v
}

/// Check a transition implementation's signature against the expected shape
/// for the given attribute-capture and split flags.
///
/// Returns `Ok(())` exactly when the implementation is callable and its
/// signature is structurally compatible; otherwise returns a mismatch
/// carrying both the expected signature and the actual type.
pub fn validate_transition_impl(implementation: &Implementation, attrs: bool, split: bool) -> (r:
    Result<(), SignatureMismatch>)
    ensures
        r is Ok <==> implementation_accepted(implementation@, attrs, split),
        r matches Err(e) ==> e.expected@ == expected_signature(attrs, split) && e.actual@
            == implementation@,
{
    let expected = expected_parameter_list(attrs);
    let expected_ret = if split {
        StarlarkType::ConfigurationDict
    } else {
        StarlarkType::Configuration
    };
    let ghost ea = expected_arguments(attrs);
    let accepted: bool = match &implementation.signature {
        Option::None => false,
        Option::Some(sig) => {
            let ghost sv = sig@;
            let mut ok = true;
            let mut i: usize = 0;
            while i < expected.len()
                invariant
                    i <= expected.len(),
                    expected.deep_view() == ea,
                    ea == expected_arguments(attrs),
                    sv == sig@,
                    ok ==> forall|k: int|
                        0 <= k < i ==> accepts_argument(sv.params, ea[k].name, ea[k].ty),
                    !ok ==> !signature_accepts(sv, attrs, split),
                decreases expected.len() - i,
            {
                let a = argument_accepted(&sig.params, &expected[i].name, expected[i].ty);
                proof {
                    if !a {
                        lemma_rejected_by_argument(sv, attrs, split, i as int);
                    }
                }
                ok = ok && a;
                i += 1;
            }
            let mut j: usize = 0;
            while j < sig.params.len()
                invariant
                    j <= sig.params.len(),
                    expected.deep_view() == ea,
                    ea == expected_arguments(attrs),
                    sv == sig@,
                    ok ==> (forall|k: int|
                        0 <= k < ea.len() ==> accepts_argument(sv.params, ea[k].name, ea[k].ty)),
                    ok ==> (forall|k: int|
                        0 <= k < j && sv.params[k].required ==> exists|i2: int|
                            0 <= i2 < ea.len() && ea[i2].name == sv.params[k].name),
                    !ok ==> !signature_accepts(sv, attrs, split),
                decreases sig.params.len() - j,
            {
                if sig.params[j].required {
                    let listed = name_among(&expected, &sig.params[j].name);
                    proof {
                        if !listed {
                            lemma_rejected_by_required(sv, attrs, split, j as int);
                        }
                    }
                    ok = ok && listed;
                }
                j += 1;
            }
            let ret_ok = assignable_types(sig.ret, expected_ret);
            proof {
                if !ret_ok {
                    lemma_rejected_by_return(sv, attrs, split);
                }
                if ok && ret_ok {
                    lemma_accepted(sv, attrs, split);
                }
            }
            ok && ret_ok
        },
    };
    if accepted {
        Result::Ok(())
    } else {
        Result::Err(
            SignatureMismatch {
                expected: CallableSignature { params: expected, ret: expected_ret },
                actual: implementation.clone(),
            },
        )
    }
}

/// A split transition never accepts an implementation whose return type is a
/// single configuration: the expected return is a string-keyed mapping.
pub proof fn lemma_split_rejects_single_configuration(sig: SignatureModel, attrs_enabled: bool)
    requires
        sig.ret == StarlarkType::Configuration,
    ensures
        !signature_accepts(sig, attrs_enabled, true),
{
    lemma_rejected_by_return(sig, attrs_enabled, true);
}

/// A non-split transition never accepts an implementation whose return type
/// is a string-keyed mapping: the expected return is a single configuration.
pub proof fn lemma_non_split_rejects_mapping(sig: SignatureModel, attrs_enabled: bool)
    requires
        sig.ret == StarlarkType::ConfigurationDict,
    ensures
        !signature_accepts(sig, attrs_enabled, false),
{
    lemma_rejected_by_return(sig, attrs_enabled, false);
}

/// An implementation with no parameter named `refs` is never accepted,
/// whatever the flags: `refs` is always among the expected arguments.
pub proof fn lemma_missing_refs_rejected(sig: SignatureModel, attrs_enabled: bool, split: bool)
    requires
        forall|j: int| 0 <= j < sig.params.len() ==> sig.params[j].name != "refs"@,
    ensures
        !signature_accepts(sig, attrs_enabled, split),
{
    let expected = expected_arguments(attrs_enabled);
    assert(expected[1].name == "refs"@);
    assert(!accepts_argument(sig.params, "refs"@, expected[1].ty)) by {
        reveal(accepts_argument);
    }
    lemma_rejected_by_argument(sig, attrs_enabled, split, 1);
}

/// An implementation accepting exactly the required `platform` and `refs`
/// parameters, at their expected types, and returning a single
/// configuration, is accepted for a non-split transition without attribute
/// capture.
pub proof fn lemma_exact_non_split_accepted(sig: SignatureModel)
    requires
        sig.params == seq![
            ParameterModel { name: "platform"@, required: true, ty: StarlarkType::Configuration },
            ParameterModel { name: "refs"@, required: true, ty: StarlarkType::Struct },
        ],
        sig.ret == StarlarkType::Configuration,
    ensures
        signature_accepts(sig, false, false),
{
    reveal(accepts_argument);
    reveal_strlit("platform");
    reveal_strlit("refs");
    let expected = expected_arguments(false);
    assert("platform"@.len() == 8);
    assert("refs"@.len() == 4);
    assert(sig.params[0].name != "refs"@);
    assert forall|i: int| 0 <= i < expected.len() implies accepts_argument(
        sig.params,
        expected[i].name,
        expected[i].ty,
    ) by {
        if i == 0 {
            assert(sig.params[0].name == expected[0].name && (forall|k: int|
                0 <= k < 0 ==> sig.params[k].name != expected[0].name) && assignable(
                expected[0].ty,
                sig.params[0].ty,
            ));
        } else {
            assert(sig.params[1].name == expected[1].name && (forall|k: int|
                0 <= k < 1 ==> sig.params[k].name != expected[1].name) && assignable(
                expected[1].ty,
                sig.params[1].ty,
            ));
        }
    }
    assert forall|j: int| 0 <= j < sig.params.len() && sig.params[j].required implies exists|i: int|
        0 <= i < expected.len() && expected[i].name == sig.params[j].name by {
        if j == 0 {
            assert(expected[0].name == sig.params[0].name);
        } else {
            assert(expected[1].name == sig.params[1].name);
        }
    }
    lemma_accepted(sig, false, false);
}

/// The same implementation shape returning a string-keyed mapping of
/// configurations is accepted for a split transition without attribute
/// capture.
pub proof fn lemma_exact_split_accepted(sig: SignatureModel)
    requires
        sig.params == seq![
            ParameterModel { name: "platform"@, required: true, ty: StarlarkType::Configuration },
            ParameterModel { name: "refs"@, required: true, ty: StarlarkType::Struct },
        ],
        sig.ret == StarlarkType::ConfigurationDict,
    ensures
        signature_accepts(sig, false, true),
{
    reveal(accepts_argument);
    reveal_strlit("platform");
    reveal_strlit("refs");
    let expected = expected_arguments(false);
    assert("platform"@.len() == 8);
    assert("refs"@.len() == 4);
    assert(sig.params[0].name != "refs"@);
    assert forall|i: int| 0 <= i < expected.len() implies accepts_argument(
        sig.params,
        expected[i].name,
        expected[i].ty,
    ) by {
        if i == 0 {
            assert(sig.params[0].name == expected[0].name && (forall|k: int|
                0 <= k < 0 ==> sig.params[k].name != expected[0].name) && assignable(
                expected[0].ty,
                sig.params[0].ty,
            ));
        } else {
            assert(sig.params[1].name == expected[1].name && (forall|k: int|
                0 <= k < 1 ==> sig.params[k].name != expected[1].name) && assignable(
                expected[1].ty,
                sig.params[1].ty,
            ));
        }
    }
    assert forall|j: int| 0 <= j < sig.params.len() && sig.params[j].required implies exists|i: int|
        0 <= i < expected.len() && expected[i].name == sig.params[j].name by {
        if j == 0 {
            assert(expected[0].name == sig.params[0].name);
        } else {
            assert(expected[1].name == sig.params[1].name);
        }
    }
    lemma_accepted(sig, false, true);
}

} // verus!
