//! The inventory of the host boundary: the types and functions for which
//! bindings are generated, in the order in which the modules register them.
use vstd::prelude::*;

verus! {

/// The namespaces that the generated bindings are laid out in.
#[derive(Clone, Copy, Debug, PartialEq, Eq, Hash, Structural)]
pub enum Namespace {
    Ffi,
    Device,
    Spark,
    SparkConfig,
}

impl Namespace {
    pub open spec fn spec_path(self) -> Seq<char> {
        match self {
            Namespace::Ffi => "ffi"@,
            Namespace::Device => "ffi::device"@,
            Namespace::Spark => "ffi::device::spark"@,
            Namespace::SparkConfig => "ffi::device::spark::config"@,
        }
    }

    /// The namespace as the bindings spell it.
    pub fn path(&self) -> (path: &'static str)
        ensures
            path@ == self.spec_path(),
    {
        match self {
            Namespace::Ffi => "ffi",
            Namespace::Device => "ffi::device",
            Namespace::Spark => "ffi::device::spark",
            Namespace::SparkConfig => "ffi::device::spark::config",
        }
    }
}

/// One item of the boundary.
#[derive(Clone, Copy, Debug, PartialEq, Eq, Hash, Structural)]
pub enum Symbol {
    DeviceDatas,
    FFIData,
    Response,
    Supply,
    StartThread,
    DeviceType,
    DeviceData,
    DeviceCommand,
    CommandFree,
    SparkCommandType,
    SparkCommand,
    SparkData,
    SparkErrorType,
    SparkError,
    FeedbackSensor,
    MotorType,
    AbsoluteEncoderConfig,
    ClosedLoopConfig,
    RelativeEncoderConfig,
    SparkMaxConfig,
}

impl Symbol {
    /// Whether the item is a function; all others are types.
    pub open spec fn spec_is_function(self) -> bool {
        self == Symbol::Supply || self == Symbol::StartThread || self == Symbol::CommandFree
    }

    pub fn is_function(&self) -> (function: bool)
        ensures
            function == self.spec_is_function(),
    {
        match self {
            Symbol::Supply | Symbol::StartThread | Symbol::CommandFree => true,
            _ => false,
        }
    }

    pub open spec fn spec_namespace(self) -> Namespace {
        match self {
            Symbol::DeviceDatas | Symbol::FFIData | Symbol::Response | Symbol::Supply
            | Symbol::StartThread => Namespace::Ffi,
            Symbol::DeviceType | Symbol::DeviceData | Symbol::DeviceCommand
            | Symbol::CommandFree => Namespace::Device,
            Symbol::SparkCommandType | Symbol::SparkCommand | Symbol::SparkData
            | Symbol::SparkErrorType | Symbol::SparkError => Namespace::Spark,
            Symbol::FeedbackSensor | Symbol::MotorType | Symbol::AbsoluteEncoderConfig
            | Symbol::ClosedLoopConfig | Symbol::RelativeEncoderConfig
            | Symbol::SparkMaxConfig => Namespace::SparkConfig,
        }
    }

    /// The namespace the item is generated into.
    pub fn namespace(&self) -> (namespace: Namespace)
        ensures
            namespace == self.spec_namespace(),
    {
        match self {
            Symbol::DeviceDatas | Symbol::FFIData | Symbol::Response | Symbol::Supply
            | Symbol::StartThread => Namespace::Ffi,
            Symbol::DeviceType | Symbol::DeviceData | Symbol::DeviceCommand
            | Symbol::CommandFree => Namespace::Device,
            Symbol::SparkCommandType | Symbol::SparkCommand | Symbol::SparkData
            | Symbol::SparkErrorType | Symbol::SparkError => Namespace::Spark,
            Symbol::FeedbackSensor | Symbol::MotorType | Symbol::AbsoluteEncoderConfig
            | Symbol::ClosedLoopConfig | Symbol::RelativeEncoderConfig
            | Symbol::SparkMaxConfig => Namespace::SparkConfig,
        }
    }
}

/// Collects the items of the boundary.
pub struct InventoryBuilder {
    symbols: Vec<Symbol>,
}

impl View for InventoryBuilder {
    type V = Seq<Symbol>;

    closed spec fn view(&self) -> Seq<Symbol> {
        self.symbols@
    }
}

/// The items of the boundary, as registered.
pub struct Inventory {
    symbols: Vec<Symbol>,
}

impl View for Inventory {
    type V = Seq<Symbol>;

    closed spec fn view(&self) -> Seq<Symbol> {
        self.symbols@
    }
}

impl InventoryBuilder {
    /// A builder that holds nothing yet.
    pub fn new() -> (builder: Self)
        ensures
            builder@ == Seq::<Symbol>::empty(),
    {
        InventoryBuilder { symbols: Vec::new() }
    }

    /// Adds `symbol` behind all that are registered.
    pub fn register(self, symbol: Symbol) -> (builder: Self)
        ensures
            builder@ == self@.push(symbol),
    {
        let mut symbols = self.symbols;
        symbols.push(symbol);
        InventoryBuilder { symbols }
    }

    /// Whether no item is registered twice.
    pub fn is_valid(&self) -> (valid: bool)
        ensures
            valid == self@.no_duplicates(),
    {
        let mut i: usize = 0;
        while i < self.symbols.len()
            invariant
                i <= self.symbols@.len(),
                forall|a: int, b: int|
                    0 <= a < b < self.symbols@.len() && b < i ==> self.symbols@[a]
                        != self.symbols@[b],
            decreases self.symbols@.len() - i,
        {
            let mut j: usize = 0;
            while j < i
                invariant
                    j <= i < self.symbols@.len(),
                    forall|a: int| 0 <= a < j ==> self.symbols@[a] != self.symbols@[i as int],
                decreases i - j,
            {
                if self.symbols[j] == self.symbols[i] {
                    return false;
                }
                j = j + 1;
            }
            i = i + 1;
        }
        true
    }

    /// Checks the inventory and hands the builder back.
    pub fn validate(self) -> (builder: Self)
        requires
            self@.no_duplicates(),
        ensures
            builder@ == self@,
    {
        self
    }

    /// The inventory of what was registered.
    pub fn build(self) -> (inventory: Inventory)
        ensures
            inventory@ == self@,
    {
        Inventory { symbols: self.symbols }
    }
}

impl Inventory {
    /// The items, in the order of registration.
    pub fn symbols(&self) -> (symbols: &Vec<Symbol>)
        ensures
            symbols@ == self@,
    {
        &self.symbols
    }
}

/// Every item of the boundary: those of the devices, those of the telemetry
/// containers, and the two calls by which the host drives the core.
pub open spec fn boundary_symbols() -> Seq<Symbol> {
    crate::device::boundary_symbols() + crate::ffi::boundary_symbols() + seq![
        Symbol::Supply,
        Symbol::StartThread,
    ]
}

/// The boundary names no item twice.
pub proof fn lemma_boundary_symbols_distinct()
    ensures
        boundary_symbols().no_duplicates(),
        boundary_symbols().len() == 20,
{
    let all = boundary_symbols();
    assert(all =~= seq![
        Symbol::DeviceType,
        Symbol::DeviceData,
        Symbol::DeviceCommand,
        Symbol::CommandFree,
        Symbol::SparkCommandType,
        Symbol::SparkCommand,
        Symbol::SparkData,
        Symbol::SparkErrorType,
        Symbol::SparkError,
        Symbol::FeedbackSensor,
        Symbol::MotorType,
        Symbol::AbsoluteEncoderConfig,
        Symbol::ClosedLoopConfig,
        Symbol::RelativeEncoderConfig,
        Symbol::SparkMaxConfig,
        Symbol::DeviceDatas,
        Symbol::FFIData,
        Symbol::Response,
        Symbol::Supply,
        Symbol::StartThread,
    ]);
}

/// The inventory of the whole boundary, checked.
pub fn __ffi_inventory() -> (inventory: Inventory)
    ensures
        inventory@ == boundary_symbols(),
        inventory@.no_duplicates(),
{
    let mut builder = InventoryBuilder::new();
    builder = crate::device::__ffi_inventory(builder);
    builder = crate::ffi::__ffi_inventory(builder);
    builder = builder.register(Symbol::Supply).register(Symbol::StartThread);
    proof {
        lemma_boundary_symbols_distinct();
    }
    builder.validate().build()
}

} // verus!
