//! A service interface and what it expands to: the request and response sums,
//! the dispatcher's arms and the client stub's methods.

use vstd::prelude::*;
use vstd::string::*;

verus! {

/// One input of a method signature.
#[derive(Clone, Debug, PartialEq, Eq)]
pub enum Input {
    /// The receiver: the service itself.
    Receiver,
    /// An argument, by the text of its type.
    Typed(String),
}

/// One argument between the angle brackets of a return type.
#[derive(Clone, Debug, PartialEq, Eq)]
pub enum GenericArg {
    /// A type, by its text.
    Type(String),
    /// Anything else: a lifetime, a constant, a binding.
    Other,
}

/// A method signature of a service interface.
///
/// `generics` holds what stands between the angle brackets of the last path
/// segment of the return type, in order; it is empty where the method returns
/// nothing, or a type that is no path, or one without angle brackets.
#[derive(Clone, Debug, PartialEq, Eq)]
pub struct Method {
    pub name: String,
    pub inputs: Vec<Input>,
    pub generics: Vec<GenericArg>,
}

/// A service interface: its name and its methods in declaration order.
#[derive(Clone, Debug, PartialEq, Eq)]
pub struct Interface {
    pub name: String,
    pub methods: Vec<Method>,
}

/// A variant of the request or of the response sum.
#[derive(Clone, Debug, PartialEq, Eq)]
pub struct Variant {
    pub name: String,
    pub payload: String,
}

/// An arm of the dispatcher: requests of `variant` go to `method`, and its
/// success comes back under `variant`.
#[derive(Clone, Debug, PartialEq, Eq)]
pub struct HandlerArm {
    pub variant: String,
    pub method: String,
}

/// A method of the client stub: `method(arg: param) -> Result<output, _>`,
/// sent and expected back under `variant`.
#[derive(Clone, Debug, PartialEq, Eq)]
pub struct ClientFunc {
    pub method: String,
    pub variant: String,
    pub param: String,
    pub output: String,
    pub error: String,
}

/// Everything a service interface expands to.
#[derive(Clone, Debug, PartialEq, Eq)]
pub struct Expansion {
    /// The name of the service contract: the interface's own.
    pub service: String,
    /// The name of the client stub.
    pub client: String,
    /// The service's error type; `None` for an interface without methods.
    pub error: Option<String>,
    /// The variants of the request sum, `ClientData`.
    pub requests: Vec<Variant>,
    /// The variants of the response sum, `ServerData`.
    pub responses: Vec<Variant>,
    /// The dispatcher's arms.
    pub handlers: Vec<HandlerArm>,
    /// The client stub's methods.
    pub client_funcs: Vec<ClientFunc>,
}

/// Why an interface does not expand.
#[derive(Clone, Debug, PartialEq, Eq)]
pub enum GenError {
    /// The method at this position has an empty name.
    Unnamed(usize),
    /// The named method has no argument after its receiver.
    MissingArgument(String),
    /// The named method's return type has no success type.
    MissingResult(String),
    /// The named method's return type has no error type.
    MissingError(String),
    /// The named method's error type is not the interface's.
    ErrorMismatch(String),
    /// The named method's variant is that of an earlier method.
    DuplicateVariant(String),
}

/// The mathematical value of a [`GenError`].
pub enum GenErrorView {
    Unnamed(int),
    MissingArgument(Seq<char>),
    MissingResult(Seq<char>),
    MissingError(Seq<char>),
    ErrorMismatch(Seq<char>),
    DuplicateVariant(Seq<char>),
}

impl View for GenError {
    type V = GenErrorView;

    open spec fn view(&self) -> GenErrorView {
        match self {
            GenError::Unnamed(i) => GenErrorView::Unnamed(*i as int),
            GenError::MissingArgument(m) => GenErrorView::MissingArgument(m@),
            GenError::MissingResult(m) => GenErrorView::MissingResult(m@),
            GenError::MissingError(m) => GenErrorView::MissingError(m@),
            GenError::ErrorMismatch(m) => GenErrorView::ErrorMismatch(m@),
            GenError::DuplicateVariant(m) => GenErrorView::DuplicateVariant(m@),
        }
    }
}

impl GenError {
    /// The failure in words.
    pub fn message(&self) -> (text: &'static str)
        ensures
            text@ == self@.message(),
    {
        match self {
            GenError::Unnamed(_) => "rpc function expects a name",
            GenError::MissingArgument(_) => "rpc function expects one argument",
            GenError::MissingResult(_) =>
                "rpc function expects a Result<T, E> type or nothing as return",
            GenError::MissingError(_) => "rpc function expects an error.",
            GenError::ErrorMismatch(_) => "rpc functions expect one error type",
            GenError::DuplicateVariant(_) => "rpc functions expect distinct variants",
        }
    }
}

impl GenErrorView {
    /// The failure in words.
    pub open spec fn message(self) -> Seq<char> {
        match self {
            GenErrorView::Unnamed(_) => "rpc function expects a name"@,
            GenErrorView::MissingArgument(_) => "rpc function expects one argument"@,
            GenErrorView::MissingResult(_) =>
                "rpc function expects a Result<T, E> type or nothing as return"@,
            GenErrorView::MissingError(_) => "rpc function expects an error."@,
            GenErrorView::ErrorMismatch(_) => "rpc functions expect one error type"@,
            GenErrorView::DuplicateVariant(_) => "rpc functions expect distinct variants"@,
        }
    }
}

/// The upper-case form of a text.
pub uninterp spec fn uppercased(text: Seq<char>) -> Seq<char>;

/// `str::to_uppercase`: the upper-case equivalent of the slice, as Unicode
/// defines it.
#[verifier::external_body]
fn to_uppercase(text: &str) -> (upper: String)
    ensures
        upper@ == uppercased(text@),
{
    text.to_uppercase()
}

/// A variant's name, put together from the upper-case form of the first
/// character of a method's name and the name: the head, then the name without
/// its first character.
pub open spec fn joined(head: Seq<char>, name: Seq<char>) -> Seq<char> {
    if name.len() == 0 {
        head
    } else {
        head + name.subrange(1, name.len() as int)
    }
}

/// A method's name as a variant's name: the first character in upper case,
/// the rest as it stands.
pub open spec fn capitalized(name: Seq<char>) -> Seq<char> {
    if name.len() == 0 {
        name
    } else {
        joined(uppercased(name.subrange(0, 1)), name)
    }
}

/// Puts a variant's name together from the upper-case form of the first
/// character of a method's name and the name.
pub fn join(head: String, name: &str) -> (variant: String)
    ensures
        variant@ == joined(head@, name@),
{
    let n = name.unicode_len();
    if n == 0 {
        return head;
    }
    head.concat(name.substring_char(1, n))
}

/// The variant's name for a method's name.
pub fn capitalize(name: &str) -> (variant: String)
    ensures
        variant@ == capitalized(name@),
{
    if name.unicode_len() == 0 {
        return String::from_str(name);
    }
    join(to_uppercase(name.substring_char(0, 1)), name)
}

impl Method {
    /// The type of the request parameter: that of the second input, where it
    /// is an argument.
    pub open spec fn param(&self) -> Option<Seq<char>> {
        if self.inputs@.len() >= 2 {
            match self.inputs@[1] {
                Input::Typed(ty) => Some(ty@),
                Input::Receiver => None,
            }
        } else {
            None
        }
    }

    /// The type at position `k` between the angle brackets of the return type.
    pub open spec fn type_arg(&self, k: int) -> Option<Seq<char>> {
        if 0 <= k < self.generics@.len() {
            match self.generics@[k] {
                GenericArg::Type(ty) => Some(ty@),
                GenericArg::Other => None,
            }
        } else {
            None
        }
    }

    /// The success type.
    pub open spec fn success(&self) -> Option<Seq<char>> {
        self.type_arg(0)
    }

    /// The error type.
    pub open spec fn failure(&self) -> Option<Seq<char>> {
        self.type_arg(1)
    }

    /// The name of the method's variant in both sums.
    pub open spec fn variant(&self) -> Seq<char> {
        capitalized(self.name@)
    }

    fn param_text(&self) -> (ty: Option<String>)
        ensures
            text_of(ty) == self.param(),
    {
        if self.inputs.len() >= 2 {
            match &self.inputs[1] {
                Input::Typed(ty) => Some(ty.clone()),
                Input::Receiver => None,
            }
        } else {
            None
        }
    }

    fn type_arg_text(&self, k: usize) -> (ty: Option<String>)
        ensures
            text_of(ty) == self.type_arg(k as int),
    {
        if k < self.generics.len() {
            match &self.generics[k] {
                GenericArg::Type(ty) => Some(ty.clone()),
                GenericArg::Other => None,
            }
        } else {
            None
        }
    }
}

/// An optional text, as a value.
pub open spec fn text_of(text: Option<String>) -> Option<Seq<char>> {
    match text {
        Some(t) => Some(t@),
        None => None,
    }
}

impl Interface {
    /// Whether a method before position `i` has the same variant as the
    /// method there.
    pub open spec fn collides(&self, i: int) -> bool {
        exists|j: int| 0 <= j < i && #[trigger] self.methods@[j].variant() == self.methods@[i].variant()
    }

    /// What is wrong with the method at position `i`, if anything: the first
    /// of an empty name, a missing argument, a missing success type, a missing
    /// error type, an error type other than the first method's, and a variant
    /// that an earlier method has.
    pub open spec fn fault(&self, i: int) -> Option<GenErrorView> {
        let m = self.methods@[i];
        if m.name@.len() == 0 {
            Some(GenErrorView::Unnamed(i))
        } else if m.param() is None {
            Some(GenErrorView::MissingArgument(m.name@))
        } else if m.success() is None {
            Some(GenErrorView::MissingResult(m.name@))
        } else if m.failure() is None {
            Some(GenErrorView::MissingError(m.name@))
        } else if m.failure() != self.methods@[0].failure() {
            Some(GenErrorView::ErrorMismatch(m.name@))
        } else if self.collides(i) {
            Some(GenErrorView::DuplicateVariant(m.name@))
        } else {
            None
        }
    }

    /// Whether every method up to position `n` is fine.
    pub open spec fn sound_to(&self, n: int) -> bool {
        forall|i: int| 0 <= i < n ==> (#[trigger] self.fault(i)) is None
    }

    /// Whether the interface expands: every method is fine.
    pub open spec fn sound(&self) -> bool {
        self.sound_to(self.methods@.len() as int)
    }

    /// Whether the first method that is not fine stands at position `i`.
    pub open spec fn first_fault(&self, i: int) -> bool {
        &&& 0 <= i < self.methods@.len()
        &&& self.sound_to(i)
        &&& self.fault(i) is Some
    }
}

impl Expansion {
    /// The number of methods.
    pub open spec fn len(&self) -> nat {
        self.handlers@.len()
    }

    /// Whether the four lists describe the same methods, position by position,
    /// under variants that differ from one another.
    pub open spec fn wf(&self) -> bool {
        &&& self.requests@.len() == self.len()
        &&& self.responses@.len() == self.len()
        &&& self.client_funcs@.len() == self.len()
        &&& (self.len() > 0 ==> self.error is Some)
        &&& forall|i: int|
            0 <= i < self.len() ==> {
                let arm = #[trigger] self.handlers@[i];
                let stub = self.client_funcs@[i];
                &&& self.requests@[i].name@ == arm.variant@
                &&& self.responses@[i].name@ == arm.variant@
                &&& stub.variant@ == arm.variant@
                &&& stub.method@ == arm.method@
                &&& stub.param@ == self.requests@[i].payload@
                &&& stub.output@ == self.responses@[i].payload@
                &&& Some(stub.error@) == text_of(self.error)
            }
        &&& forall|i: int, j: int|
            0 <= i < j < self.len() ==> (#[trigger] self.handlers@[i]).variant@
                != (#[trigger] self.handlers@[j]).variant@
    }

    /// Whether this is what the first `n` methods of `iface` expand to.
    pub open spec fn covers(&self, iface: &Interface, n: int) -> bool {
        &&& self.service@ == iface.name@
        &&& self.client@ == iface.name@ + "Client"@
        &&& self.handlers@.len() == n
        &&& self.requests@.len() == n
        &&& self.responses@.len() == n
        &&& self.client_funcs@.len() == n
        &&& text_of(self.error) == if n == 0 {
            None
        } else {
            iface.methods@[0].failure()
        }
        &&& forall|i: int|
            0 <= i < n ==> {
                let m = #[trigger] iface.methods@[i];
                &&& self.requests@[i].name@ == m.variant()
                &&& Some(self.requests@[i].payload@) == m.param()
                &&& self.responses@[i].name@ == m.variant()
                &&& Some(self.responses@[i].payload@) == m.success()
                &&& self.handlers@[i].variant@ == m.variant()
                &&& self.handlers@[i].method@ == m.name@
                &&& self.client_funcs@[i].method@ == m.name@
                &&& self.client_funcs@[i].variant@ == m.variant()
                &&& Some(self.client_funcs@[i].param@) == m.param()
                &&& Some(self.client_funcs@[i].output@) == m.success()
                &&& Some(self.client_funcs@[i].error@) == m.failure()
            }
    }

    /// Whether this is what `iface` expands to.
    pub open spec fn expands(&self, iface: &Interface) -> bool {
        self.covers(iface, iface.methods@.len() as int)
    }

    /// Whether the arm at position `i` is the first that serves `variant`.
    pub open spec fn first_arm(&self, variant: Seq<char>, i: int) -> bool {
        &&& 0 <= i < self.len()
        &&& self.handlers@[i].variant@ == variant
        &&& forall|j: int| 0 <= j < i ==> (#[trigger] self.handlers@[j]).variant@ != variant
    }

    /// The position of the arm that serves `variant`: the first of that
    /// variant; `None` where no arm serves it.
    pub open spec fn arm_of(&self, variant: Seq<char>) -> Option<int> {
        if exists|i: int| self.first_arm(variant, i) {
            Some(choose|i: int| self.first_arm(variant, i))
        } else {
            None
        }
    }

    /// The first arm of a variant is the only first arm of it.
    pub proof fn lemma_first_arm_is_one(&self, variant: Seq<char>, i: int, j: int)
        requires
            self.first_arm(variant, i),
            self.first_arm(variant, j),
        ensures
            i == j,
    {
        if i < j {
            assert(self.handlers@[i].variant@ != variant);
        } else if j < i {
            assert(self.handlers@[j].variant@ != variant);
        }
    }

    /// The position of the arm that serves `variant`, if there is one.
    pub fn find(&self, variant: &str) -> (at: Option<usize>)
        ensures
            match at {
                Some(i) => self.arm_of(variant@) == Some(i as int),
                None => self.arm_of(variant@) is None,
            },
            at matches Some(i) ==> self.first_arm(variant@, i as int),
    {
        let at = self.search(variant);
        proof {
            match at {
                Some(i) => {
                    self.lemma_first_arm_is_one(variant@, i as int, self.arm_of(variant@)->0);
                },
                None => {
                    assert forall|j: int| !self.first_arm(variant@, j) by {
                        if 0 <= j < self.len() {
                            assert(self.handlers@[j].variant@ != variant@);
                        }
                    }
                },
            }
        }
        at
    }

    fn search(&self, variant: &str) -> (at: Option<usize>)
        ensures
            match at {
                Some(i) => self.first_arm(variant@, i as int),
                None => forall|j: int|
                    0 <= j < self.len() ==> (#[trigger] self.handlers@[j]).variant@ != variant@,
            },
    {
        let wanted = String::from_str(variant);
        let mut i: usize = 0;
        while i < self.handlers.len()
            invariant
                i <= self.handlers@.len(),
                wanted@ == variant@,
                forall|j: int| 0 <= j < i ==> (#[trigger] self.handlers@[j]).variant@ != variant@,
            decreases self.handlers@.len() - i,
        {
            if self.handlers[i].variant == wanted {
                return Some(i);
            }
            i += 1;
        }
        None
    }
}

/// An interface without methods expands, to empty sums.
pub proof fn lemma_empty_interface_expands(iface: Interface)
    requires
        iface.methods@.len() == 0,
    ensures
        iface.sound(),
        forall|i: int| !iface.first_fault(i),
{
}

/// At most one method is the first at fault, so the error of an interface
/// that does not expand is one and the same.
pub proof fn lemma_first_fault_is_one(iface: Interface, i: int, j: int)
    requires
        iface.first_fault(i),
        iface.first_fault(j),
    ensures
        i == j,
{
    if i < j {
        assert(iface.fault(i) is None);
    } else if j < i {
        assert(iface.fault(j) is None);
    }
}

/// A variant of one of the two sums: `name(payload)`.
pub fn derive_variante(name: &String, payload: &String) -> (v: Variant)
    ensures
        v.name@ == name@,
        v.payload@ == payload@,
{
    Variant { name: name.clone(), payload: payload.clone() }
}

/// The dispatcher's arm for a method.
pub fn derive_handler_arm(method: &String, variant: &String) -> (arm: HandlerArm)
    ensures
        arm.variant@ == variant@,
        arm.method@ == method@,
{
    HandlerArm { variant: variant.clone(), method: method.clone() }
}

/// The client stub's method for a method of the interface.
pub fn derive_client_func(
    method: &String,
    variant: &String,
    param: &String,
    output: &String,
    error: &String,
) -> (stub: ClientFunc)
    ensures
        stub.method@ == method@,
        stub.variant@ == variant@,
        stub.param@ == param@,
        stub.output@ == output@,
        stub.error@ == error@,
{
    ClientFunc {
        method: method.clone(),
        variant: variant.clone(),
        param: param.clone(),
        output: output.clone(),
        error: error.clone(),
    }
}

/// Expands a service interface.
///
/// The interface expands exactly when each method has a name, an argument
/// after its receiver, a success type and an error type, all methods share one
/// error type, and no two methods share a variant. Otherwise the error is that
/// of the first method that is not fine.
pub fn service(iface: &Interface) -> (r: Result<Expansion, GenError>)
    ensures
        match r {
            Ok(model) => iface.sound() && model.expands(iface) && model.wf(),
            Err(e) => exists|i: int| iface.first_fault(i) && iface.fault(i) == Some(e@),
        },
{
    let mut client = iface.name.clone();
    client.append("Client");
    let mut model = Expansion {
        service: iface.name.clone(),
        client,
        error: None,
        requests: Vec::new(),
        responses: Vec::new(),
        handlers: Vec::new(),
        client_funcs: Vec::new(),
    };
    let n = iface.methods.len();
    let mut i: usize = 0;
    while i < n
        invariant
            n == iface.methods@.len(),
            i <= n,
            iface.sound_to(i as int),
            model.covers(iface, i as int),
            model.wf(),
        decreases n - i,
    {
        let m = &iface.methods[i];
        if m.name.as_str().is_empty() {
            assert(iface.first_fault(i as int));
            return Err(GenError::Unnamed(i));
        }
        let variant = capitalize(m.name.as_str());
        let param = match m.param_text() {
            Some(ty) => ty,
            None => {
                assert(iface.first_fault(i as int));
                return Err(GenError::MissingArgument(m.name.clone()));
            },
        };
        let output = match m.type_arg_text(0) {
            Some(ty) => ty,
            None => {
                assert(iface.first_fault(i as int));
                return Err(GenError::MissingResult(m.name.clone()));
            },
        };
        let error = match m.type_arg_text(1) {
            Some(ty) => ty,
            None => {
                assert(iface.first_fault(i as int));
                return Err(GenError::MissingError(m.name.clone()));
            },
        };
        let agreed = match &model.error {
            Some(first) => *first == error,
            None => true,
        };
        if !agreed {
            assert(iface.first_fault(i as int));
            return Err(GenError::ErrorMismatch(m.name.clone()));
        }
        if let Some(j) = model.search(variant.as_str()) {
            assert(iface.methods@[j as int].variant() == model.handlers@[j as int].variant@);
            assert(iface.collides(i as int));
            assert(iface.first_fault(i as int));
            return Err(GenError::DuplicateVariant(m.name.clone()));
        }
        assert(!iface.collides(i as int)) by {
            assert forall|j: int| 0 <= j < i implies #[trigger] iface.methods@[j].variant()
                != iface.methods@[i as int].variant() by {
                assert(model.handlers@[j].variant@ == iface.methods@[j].variant());
            }
        }
        assert(iface.fault(i as int) is None);
        model.requests.push(derive_variante(&variant, &param));
        model.responses.push(derive_variante(&variant, &output));
        model.handlers.push(derive_handler_arm(&m.name, &variant));
        model.client_funcs.push(derive_client_func(&m.name, &variant, &param, &output, &error));
        if i == 0 {
            model.error = Some(error);
        }
        i += 1;
    }
    Ok(model)
}

} // verus!
