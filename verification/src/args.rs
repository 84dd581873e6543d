//! The annotation argument grammar: flags, key(value) pairs and repeated
//! `types(...)` lists, decoded left to right into a configuration for the
//! serialization-test transformer.

use vstd::prelude::*;

verus! {

/// A sub-argument inside a list argument, such as the `f` of `random(f)`,
/// the `true` of `ark(true)`, or one element of `types(...)`.
#[derive(Debug, Clone)]
pub enum SubArg {
    /// A path. `ident` is set exactly when the path is a single plain
    /// identifier; `tokens` holds the path's rendered token text.
    Path { ident: Option<String>, tokens: String },
    /// A boolean literal.
    Bool(bool),
    /// The contents of a string literal.
    Str(String),
    /// Any other shape: another literal kind, a nested list, a key = value pair.
    Other,
}

/// One top-level argument of the annotation.
#[derive(Debug, Clone)]
pub enum Arg {
    /// A bare path argument. `ident` is set exactly when the path is a single
    /// plain identifier.
    Path { ident: Option<String> },
    /// A list argument `name(...)`. `ident` is set exactly when `name` is a
    /// single plain identifier.
    List { ident: Option<String>, args: Vec<SubArg> },
    /// Any other shape: a literal or a key = value pair.
    Other,
}

/// The diagnostics the transformers abort with; parsing never recovers.
#[derive(Debug, Clone, Copy, PartialEq, Eq, Structural)]
pub enum Error {
    /// A top-level argument of an unrecognized shape or path.
    InvalidArgument,
    /// A list argument whose name is not one of the recognized keywords.
    InvalidAttribute,
    /// `random(...)` with a sub-argument count other than one.
    RandomArity,
    /// `random(...)` whose sub-argument is not a plain identifier.
    RandomNotIdent,
    /// `constr(...)` with a sub-argument count other than one.
    ConstrArity,
    /// `constr(...)` whose sub-argument is not a plain identifier.
    ConstrNotIdent,
    /// `ark(...)` with a sub-argument count other than one.
    ArkArity,
    /// `ark(...)` whose sub-argument is not a boolean literal.
    ArkNotBool,
    /// `serde(...)` with a sub-argument count other than one.
    SerdeArity,
    /// `serde(...)` whose sub-argument is not a boolean literal.
    SerdeNotBool,
    /// A `types(...)` element that is neither a path nor a quoted string.
    ExpectedType,
    /// A quoted `types(...)` element that does not parse as a type expression.
    InvalidTypeString,
    /// The serialization-test annotation sits on an item that is neither a
    /// struct nor an enum.
    ExpectedStructOrEnum,
}

/// How the synthesized tests construct an instance of the annotated type.
#[derive(Debug, Clone)]
pub enum Constr {
    /// The type's zero-argument default constructor.
    DefaultInstance,
    /// An arbitrary-value generator fed a fixed block of seeded pseudo-random
    /// bytes.
    Arbitrary,
    /// The named associated function, handed a seeded pseudo-random generator.
    Random(String),
    /// The named zero-argument associated constructor.
    Method(String),
}

impl Constr {
    /// An equal-valued copy, as the plan puts one on every synthesized test.
    pub fn duplicate(&self) -> (r: Constr)
        ensures
            constr_model(r) == constr_model(*self),
    {
        match self {
            Constr::DefaultInstance => Constr::DefaultInstance,
            Constr::Arbitrary => Constr::Arbitrary,
            Constr::Random(f) => Constr::Random(f.clone()),
            Constr::Method(f) => Constr::Method(f.clone()),
        }
    }
}

/// The configuration one annotation parses to.
#[derive(Debug, Clone)]
pub struct SerTestConfig {
    /// The construction strategy; the last scalar argument wins.
    pub constr: Constr,
    /// Whether canonical-binary round-trip tests are enabled.
    pub test_ark: bool,
    /// Whether serde round-trip tests are enabled.
    pub test_serde: bool,
    /// One entry per `types(...)` argument, in argument order; each entry is
    /// the rendered token text of its type arguments.
    pub types: Vec<Vec<String>>,
}

/// Mathematical mirror of `Constr`.
pub enum ConstrModel {
    DefaultInstance,
    Arbitrary,
    Random(Seq<char>),
    Method(Seq<char>),
}

/// Mathematical mirror of `SerTestConfig`.
pub struct ConfigModel {
    pub constr: ConstrModel,
    pub test_ark: bool,
    pub test_serde: bool,
    pub types: Seq<Seq<Seq<char>>>,
}

pub open spec fn constr_model(c: Constr) -> ConstrModel {
    match c {
        Constr::DefaultInstance => ConstrModel::DefaultInstance,
        Constr::Arbitrary => ConstrModel::Arbitrary,
        Constr::Random(f) => ConstrModel::Random(f@),
        Constr::Method(f) => ConstrModel::Method(f@),
    }
}

pub open spec fn config_model(c: SerTestConfig) -> ConfigModel {
    ConfigModel {
        constr: constr_model(c.constr),
        test_ark: c.test_ark,
        test_serde: c.test_serde,
        types: c.types.deep_view(),
    }
}

/// The configuration an annotation with no arguments parses to: default
/// construction, both formats enabled, no instantiation lists.
pub open spec fn default_config_model() -> ConfigModel {
    ConfigModel {
        constr: ConstrModel::DefaultInstance,
        test_ark: true,
        test_serde: true,
        types: Seq::empty(),
    }
}

/// What the type-expression parser returns for a quoted `types(...)` element:
/// `Some` of the canonical token text exactly when the string parses as a
/// type expression.
pub uninterp spec fn parse_type_spec(s: Seq<char>) -> Option<Seq<char>>;

/// Relies on `syn::parse_str::<syn::Type>` and the `quote` token rendering:
/// whether a string parses as a type expression, and the canonical token text
/// of the parsed type, are functions of the string alone.
#[verifier::external_body]
fn parse_type_str(s: &String) -> (r: Option<String>)
    ensures
        r is Some == parse_type_spec(s@) is Some,
        r matches Some(t) ==> parse_type_spec(s@) == Some(t@),
{
    match syn::parse_str::<syn::Type>(s.as_str()) {
        Ok(t) => Some(quote::ToTokens::to_token_stream(&t).to_string()),
        Err(_) => None,
    }
}

/// Relies on `str`'s `==`, which std documents as equality of the two
/// character sequences.
#[verifier::external_body]
pub(crate) fn str_eq(a: &str, b: &str) -> (r: bool)
    ensures
        r == (a@ == b@),
{
    a == b
}

/// What decoding one `types(...)` element yields.
pub open spec fn sub_type_model(m: SubArg) -> Result<Seq<char>, Error> {
    match m {
        SubArg::Str(s) => match parse_type_spec(s@) {
            Option::Some(t) => Result::Ok(t),
            Option::None => Result::Err(Error::InvalidTypeString),
        },
        SubArg::Path { ident: _, tokens } => Result::Ok(tokens@),
        _ => Result::Err(Error::ExpectedType),
    }
}

pub open spec fn str_result_model(r: Result<String, Error>) -> Result<Seq<char>, Error> {
    match r {
        Result::Ok(s) => Result::Ok(s@),
        Result::Err(e) => Result::Err(e),
    }
}

/// Decodes one `types(...)` element: a quoted string is parsed as a type
/// expression, a bare path stands as written; anything else is rejected.
pub fn parse_type(m: &SubArg) -> (r: Result<String, Error>)
    ensures
        str_result_model(r) == sub_type_model(*m),
{
    match m {
        SubArg::Str(s) => match parse_type_str(s) {
            Option::Some(t) => Result::Ok(t),
            Option::None => Result::Err(Error::InvalidTypeString),
        },
        SubArg::Path { ident: _, tokens } => Result::Ok(tokens.clone()),
        _ => Result::Err(Error::ExpectedType),
    }
}

/// What decoding a whole `types(...)` list yields: the elements in order, or
/// the leftmost element's diagnostic.
pub open spec fn types_list_model(args: Seq<SubArg>) -> Result<Seq<Seq<char>>, Error>
    decreases args.len(),
{
    if args.len() == 0 {
        Result::Ok(Seq::empty())
    } else {
        match types_list_model(args.drop_last()) {
            Result::Ok(pre) => match sub_type_model(args.last()) {
                Result::Ok(t) => Result::Ok(pre.push(t)),
                Result::Err(e) => Result::Err(e),
            },
            Result::Err(e) => Result::Err(e),
        }
    }
}

proof fn lemma_types_list_err(args: Seq<SubArg>, i: int, e: Error)
    requires
        0 <= i <= args.len(),
        types_list_model(args.take(i)) == Result::<Seq<Seq<char>>, Error>::Err(e),
    ensures
        types_list_model(args) == Result::<Seq<Seq<char>>, Error>::Err(e),
    decreases args.len() - i,
{
    if i < args.len() {
        assert(args.take(i + 1).drop_last() =~= args.take(i));
        lemma_types_list_err(args, i + 1, e);
    } else {
        assert(args.take(i) =~= args);
    }
}

pub open spec fn list_result_model(r: Result<Vec<String>, Error>) -> Result<
    Seq<Seq<char>>,
    Error,
> {
    match r {
        Result::Ok(v) => Result::Ok(v.deep_view()),
        Result::Err(e) => Result::Err(e),
    }
}

/// Decodes the elements of one `types(...)` list, left to right.
pub fn parse_types_list(args: &Vec<SubArg>) -> (r: Result<Vec<String>, Error>)
    ensures
        list_result_model(r) == types_list_model(args@),
{
    let mut out: Vec<String> = Vec::new();
    proof {
        assert(out.deep_view() =~= Seq::<Seq<char>>::empty());
        assert(args@.take(0) =~= Seq::<SubArg>::empty());
    }
    let mut i: usize = 0;
    while i < args.len()
        invariant
            i <= args.len(),
            types_list_model(args@.take(i as int)) == Result::<Seq<Seq<char>>, Error>::Ok(
                out.deep_view(),
            ),
        decreases args.len() - i,
    {
        let ghost pre_dv = out.deep_view();
        match parse_type(&args[i]) {
            Result::Ok(t) => {
                let ghost tv = t@;
                out.push(t);
                proof {
                    assert(args@.take(i + 1).drop_last() =~= args@.take(i as int));
                    assert(args@.take(i + 1).last() == args@[i as int]);
                    assert(out.deep_view() =~= pre_dv.push(tv));
                }
            },
            Result::Err(e) => {
                proof {
                    assert(args@.take(i + 1).drop_last() =~= args@.take(i as int));
                    lemma_types_list_err(args@, i + 1, e);
                }
                return Result::Err(e);
            },
        }
        i = i + 1;
    }
    proof {
        assert(args@.take(args.len() as int) =~= args@);
    }
    Result::Ok(out)
}

/// How one argument, decoded, changes the configuration built so far.
pub open spec fn apply_arg_model(c: ConfigModel, arg: Arg) -> Result<ConfigModel, Error> {
    match arg {
        Arg::Path { ident } => match ident {
            Option::Some(id) => if id@ == "random"@ {
                Result::Ok(
                    ConfigModel {
                        constr: ConstrModel::Random(id@),
                        test_ark: c.test_ark,
                        test_serde: c.test_serde,
                        types: c.types,
                    },
                )
            } else if id@ == "arbitrary"@ {
                Result::Ok(
                    ConfigModel {
                        constr: ConstrModel::Arbitrary,
                        test_ark: c.test_ark,
                        test_serde: c.test_serde,
                        types: c.types,
                    },
                )
            } else {
                Result::Err(Error::InvalidArgument)
            },
            Option::None => Result::Err(Error::InvalidArgument),
        },
        Arg::List { ident, args } => match ident {
            Option::Some(id) => if id@ == "random"@ {
                if args@.len() != 1 {
                    Result::Err(Error::RandomArity)
                } else {
                    match args@[0] {
                        SubArg::Path { ident: fi, tokens: _ } => match fi {
                            Option::Some(f) => Result::Ok(
                                ConfigModel {
                                    constr: ConstrModel::Random(f@),
                                    test_ark: c.test_ark,
                                    test_serde: c.test_serde,
                                    types: c.types,
                                },
                            ),
                            Option::None => Result::Err(Error::RandomNotIdent),
                        },
                        _ => Result::Err(Error::RandomNotIdent),
                    }
                }
            } else if id@ == "constr"@ {
                if args@.len() != 1 {
                    Result::Err(Error::ConstrArity)
                } else {
                    match args@[0] {
                        SubArg::Path { ident: fi, tokens: _ } => match fi {
                            Option::Some(f) => Result::Ok(
                                ConfigModel {
                                    constr: ConstrModel::Method(f@),
                                    test_ark: c.test_ark,
                                    test_serde: c.test_serde,
                                    types: c.types,
                                },
                            ),
                            Option::None => Result::Err(Error::ConstrNotIdent),
                        },
                        _ => Result::Err(Error::ConstrNotIdent),
                    }
                }
            } else if id@ == "ark"@ {
                if args@.len() != 1 {
                    Result::Err(Error::ArkArity)
                } else {
                    match args@[0] {
                        SubArg::Bool(b) => Result::Ok(
                            ConfigModel {
                                constr: c.constr,
                                test_ark: b,
                                test_serde: c.test_serde,
                                types: c.types,
                            },
                        ),
                        _ => Result::Err(Error::ArkNotBool),
                    }
                }
            } else if id@ == "serde"@ {
                if args@.len() != 1 {
                    Result::Err(Error::SerdeArity)
                } else {
                    match args@[0] {
                        SubArg::Bool(b) => Result::Ok(
                            ConfigModel {
                                constr: c.constr,
                                test_ark: c.test_ark,
                                test_serde: b,
                                types: c.types,
                            },
                        ),
                        _ => Result::Err(Error::SerdeNotBool),
                    }
                }
            } else if id@ == "types"@ {
                match types_list_model(args@) {
                    Result::Ok(l) => Result::Ok(
                        ConfigModel {
                            constr: c.constr,
                            test_ark: c.test_ark,
                            test_serde: c.test_serde,
                            types: c.types.push(l),
                        },
                    ),
                    Result::Err(e) => Result::Err(e),
                }
            } else {
                Result::Err(Error::InvalidAttribute)
            },
            Option::None => Result::Err(Error::InvalidAttribute),
        },
        Arg::Other => Result::Err(Error::InvalidArgument),
    }
}

/// What the whole argument list parses to: the left-to-right fold of
/// `apply_arg_model` over the default configuration, stopped at the leftmost
/// offending argument.
pub open spec fn parse_args_model(args: Seq<Arg>) -> Result<ConfigModel, Error>
    decreases args.len(),
{
    if args.len() == 0 {
        Result::Ok(default_config_model())
    } else {
        match parse_args_model(args.drop_last()) {
            Result::Ok(c) => apply_arg_model(c, args.last()),
            Result::Err(e) => Result::Err(e),
        }
    }
}

proof fn lemma_parse_args_err(args: Seq<Arg>, i: int, e: Error)
    requires
        0 <= i <= args.len(),
        parse_args_model(args.take(i)) == Result::<ConfigModel, Error>::Err(e),
    ensures
        parse_args_model(args) == Result::<ConfigModel, Error>::Err(e),
    decreases args.len() - i,
{
    if i < args.len() {
        assert(args.take(i + 1).drop_last() =~= args.take(i));
        lemma_parse_args_err(args, i + 1, e);
    } else {
        assert(args.take(i) =~= args);
    }
}

pub open spec fn cfg_result_model(r: Result<SerTestConfig, Error>) -> Result<ConfigModel, Error> {
    match r {
        Result::Ok(c) => Result::Ok(config_model(c)),
        Result::Err(e) => Result::Err(e),
    }
}

/// Decodes the annotation's argument list into a configuration, or stops at
/// the leftmost offending argument with its diagnostic. Later scalar
/// arguments overwrite earlier ones; `types(...)` lists accumulate in order.
pub fn parse_args(args: &Vec<Arg>) -> (r: Result<SerTestConfig, Error>)
    ensures
        cfg_result_model(r) == parse_args_model(args@),
{
    let mut c = SerTestConfig {
        constr: Constr::DefaultInstance,
        test_ark: true,
        test_serde: true,
        types: Vec::new(),
    };
    proof {
        assert(c.types.deep_view() =~= Seq::<Seq<Seq<char>>>::empty());
        assert(args@.take(0) =~= Seq::<Arg>::empty());
    }
    let mut i: usize = 0;
    while i < args.len()
        invariant
            i <= args.len(),
            parse_args_model(args@.take(i as int)) == Result::<ConfigModel, Error>::Ok(
                config_model(c),
            ),
        decreases args.len() - i,
    {
        let ghost pre = config_model(c);
        proof {
            assert(args@.take(i + 1).drop_last() =~= args@.take(i as int));
            assert(args@.take(i + 1).last() == args@[i as int]);
        }
        match &args[i] {
            Arg::Path { ident } => match ident {
                Option::Some(id) => {
                    if str_eq(id.as_str(), "random") {
                        c.constr = Constr::Random(id.clone());
                    } else if str_eq(id.as_str(), "arbitrary") {
                        c.constr = Constr::Arbitrary;
                    } else {
                        proof {
                            lemma_parse_args_err(args@, i + 1, Error::InvalidArgument);
                        }
                        return Result::Err(Error::InvalidArgument);
                    }
                },
                Option::None => {
                    proof {
                        lemma_parse_args_err(args@, i + 1, Error::InvalidArgument);
                    }
                    return Result::Err(Error::InvalidArgument);
                },
            },
            Arg::List { ident, args: sub } => match ident {
                Option::Some(id) => {
                    if str_eq(id.as_str(), "random") {
                        if sub.len() != 1 {
                            proof {
                                lemma_parse_args_err(args@, i + 1, Error::RandomArity);
                            }
                            return Result::Err(Error::RandomArity);
                        }
                        match &sub[0] {
                            SubArg::Path { ident: Option::Some(f), tokens: _ } => {
                                c.constr = Constr::Random(f.clone());
                            },
                            _ => {
                                proof {
                                    lemma_parse_args_err(args@, i + 1, Error::RandomNotIdent);
                                }
                                return Result::Err(Error::RandomNotIdent);
                            },
                        }
                    } else if str_eq(id.as_str(), "constr") {
                        if sub.len() != 1 {
                            proof {
                                lemma_parse_args_err(args@, i + 1, Error::ConstrArity);
                            }
                            return Result::Err(Error::ConstrArity);
                        }
                        match &sub[0] {
                            SubArg::Path { ident: Option::Some(f), tokens: _ } => {
                                c.constr = Constr::Method(f.clone());
                            },
                            _ => {
                                proof {
                                    lemma_parse_args_err(args@, i + 1, Error::ConstrNotIdent);
                                }
                                return Result::Err(Error::ConstrNotIdent);
                            },
                        }
                    } else if str_eq(id.as_str(), "ark") {
                        if sub.len() != 1 {
                            proof {
                                lemma_parse_args_err(args@, i + 1, Error::ArkArity);
                            }
                            return Result::Err(Error::ArkArity);
                        }
                        match &sub[0] {
                            SubArg::Bool(b) => {
                                c.test_ark = *b;
                            },
                            _ => {
                                proof {
                                    lemma_parse_args_err(args@, i + 1, Error::ArkNotBool);
                                }
                                return Result::Err(Error::ArkNotBool);
                            },
                        }
                    } else if str_eq(id.as_str(), "serde") {
                        if sub.len() != 1 {
                            proof {
                                lemma_parse_args_err(args@, i + 1, Error::SerdeArity);
                            }
                            return Result::Err(Error::SerdeArity);
                        }
                        match &sub[0] {
                            SubArg::Bool(b) => {
                                c.test_serde = *b;
                            },
                            _ => {
                                proof {
                                    lemma_parse_args_err(args@, i + 1, Error::SerdeNotBool);
                                }
                                return Result::Err(Error::SerdeNotBool);
                            },
                        }
                    } else if str_eq(id.as_str(), "types") {
                        let ghost pre_types = c.types.deep_view();
                        match parse_types_list(sub) {
                            Result::Ok(l) => {
                                let ghost lv = l.deep_view();
                                c.types.push(l);
                                proof {
                                    assert(c.types.deep_view() =~= pre_types.push(lv));
                                }
                            },
                            Result::Err(e) => {
                                proof {
                                    lemma_parse_args_err(args@, i + 1, e);
                                }
                                return Result::Err(e);
                            },
                        }
                    } else {
                        proof {
                            lemma_parse_args_err(args@, i + 1, Error::InvalidAttribute);
                        }
                        return Result::Err(Error::InvalidAttribute);
                    }
                },
                Option::None => {
                    proof {
                        lemma_parse_args_err(args@, i + 1, Error::InvalidAttribute);
                    }
                    return Result::Err(Error::InvalidAttribute);
                },
            },
            Arg::Other => {
                proof {
                    lemma_parse_args_err(args@, i + 1, Error::InvalidArgument);
                }
                return Result::Err(Error::InvalidArgument);
            },
        }
        i = i + 1;
    }
    proof {
        assert(args@.take(args.len() as int) =~= args@);
    }
    Result::Ok(c)
}

/// The diagnostic text each error aborts with.
pub open spec fn message_of(e: Error) -> Seq<char> {
    match e {
        Error::InvalidArgument => "invalid argument"@,
        Error::InvalidAttribute => "invalid attribute"@,
        Error::RandomArity => "random attribute takes 1 argument"@,
        Error::RandomNotIdent => "random argument must be an identifier"@,
        Error::ConstrArity => "constr attribute takes 1 argument"@,
        Error::ConstrNotIdent => "constr argument must be an identifier"@,
        Error::ArkArity => "ark attribute takes 1 argument"@,
        Error::ArkNotBool => "ark argument must be a boolean"@,
        Error::SerdeArity => "serde attribute takes 1 argument"@,
        Error::SerdeNotBool => "serde argument must be a boolean"@,
        Error::ExpectedType => "expected type"@,
        Error::InvalidTypeString => "invalid type string"@,
        Error::ExpectedStructOrEnum => "expected struct or enum"@,
    }
}

impl Error {
    /// The diagnostic text this error aborts with.
    pub fn message(&self) -> (m: &'static str)
        ensures
            m@ == message_of(*self),
    {
        match self {
            Error::InvalidArgument => "invalid argument",
            Error::InvalidAttribute => "invalid attribute",
            Error::RandomArity => "random attribute takes 1 argument",
            Error::RandomNotIdent => "random argument must be an identifier",
            Error::ConstrArity => "constr attribute takes 1 argument",
            Error::ConstrNotIdent => "constr argument must be an identifier",
            Error::ArkArity => "ark attribute takes 1 argument",
            Error::ArkNotBool => "ark argument must be a boolean",
            Error::SerdeArity => "serde attribute takes 1 argument",
            Error::SerdeNotBool => "serde argument must be a boolean",
            Error::ExpectedType => "expected type",
            Error::InvalidTypeString => "invalid type string",
            Error::ExpectedStructOrEnum => "expected struct or enum",
        }
    }
}

} // verus!
