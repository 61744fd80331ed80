use vstd::prelude::*;

verus! {

/// The five classes into which every failure of the library falls.
#[derive(Clone, Copy, Debug, PartialEq, Eq, Structural)]
pub enum ErrorKind {
    /// Malformed or out-of-range input, rejected before any change.
    Validation,
    /// The operation is not permitted: a disabled, paused or unapproved
    /// recipe, an unauthorised actor, a self-approval.
    Policy,
    /// The record is not in the phase that the operation needs.
    State,
    /// Not enough material, or a debit that the ledger refused.
    Resource,
    /// A counter would leave its integer domain.
    Arithmetic,
}

/// Failures of the crafting workflow and of crafter progression.
#[derive(Clone, Copy, Debug, PartialEq, Eq)]
pub enum CraftingError {
    CraftingPaused,
    RecipeNotApproved,
    RecipeDisabled,
    /// The number of supplied materials differs from the number required.
    MaterialMismatch,
    InsufficientFee,
    InvalidFeePercentage,
    UnauthorizedAccess,
    NotInGuild,
    InvalidBonus,
    /// The record is not in the phase that the operation needs.
    InvalidCraftingStatus,
    MaterialsNotVerified,
    MaterialsNotConsumed,
    /// The crafter owns less of a required material than the recipe asks for.
    InsufficientMaterialBalance { kind: crate::address::Address, required: u64, available: u64 },
    /// No supplied entry names a required material.
    MissingMaterials { kind: crate::address::Address },
    /// The record belongs to another recipe than the one handed in, or
    /// there is no recipe with the identifier.
    InvalidRecipe,
    /// There is no record with the identifier.
    UnknownRecord,
    /// The record is not old enough to be cancelled.
    CancelTooEarly,
    /// A counter or a timestamp would overflow.
    ArithmeticOverflow,
}

impl CraftingError {
    /// The class of the failure.
    pub open spec fn kind_spec(self) -> ErrorKind {
        match self {
            CraftingError::MaterialMismatch => ErrorKind::Validation,
            CraftingError::InsufficientFee => ErrorKind::Validation,
            CraftingError::InvalidFeePercentage => ErrorKind::Validation,
            CraftingError::InvalidBonus => ErrorKind::Validation,
            CraftingError::InvalidRecipe => ErrorKind::Validation,
            CraftingError::UnknownRecord => ErrorKind::Validation,
            CraftingError::CancelTooEarly => ErrorKind::Policy,
            CraftingError::CraftingPaused => ErrorKind::Policy,
            CraftingError::RecipeNotApproved => ErrorKind::Policy,
            CraftingError::RecipeDisabled => ErrorKind::Policy,
            CraftingError::UnauthorizedAccess => ErrorKind::Policy,
            CraftingError::NotInGuild => ErrorKind::Policy,
            CraftingError::InvalidCraftingStatus => ErrorKind::State,
            CraftingError::MaterialsNotVerified => ErrorKind::State,
            CraftingError::MaterialsNotConsumed => ErrorKind::State,
            CraftingError::InsufficientMaterialBalance { .. } => ErrorKind::Resource,
            CraftingError::MissingMaterials { .. } => ErrorKind::Resource,
            CraftingError::ArithmeticOverflow => ErrorKind::Arithmetic,
        }
    }

    /// The class of the failure.
    pub fn kind(&self) -> (k: ErrorKind)
        ensures
            k == self.kind_spec(),
    {
        match self {
            CraftingError::MaterialMismatch => ErrorKind::Validation,
            CraftingError::InsufficientFee => ErrorKind::Validation,
            CraftingError::InvalidFeePercentage => ErrorKind::Validation,
            CraftingError::InvalidBonus => ErrorKind::Validation,
            CraftingError::InvalidRecipe => ErrorKind::Validation,
            CraftingError::UnknownRecord => ErrorKind::Validation,
            CraftingError::CancelTooEarly => ErrorKind::Policy,
            CraftingError::CraftingPaused => ErrorKind::Policy,
            CraftingError::RecipeNotApproved => ErrorKind::Policy,
            CraftingError::RecipeDisabled => ErrorKind::Policy,
            CraftingError::UnauthorizedAccess => ErrorKind::Policy,
            CraftingError::NotInGuild => ErrorKind::Policy,
            CraftingError::InvalidCraftingStatus => ErrorKind::State,
            CraftingError::MaterialsNotVerified => ErrorKind::State,
            CraftingError::MaterialsNotConsumed => ErrorKind::State,
            CraftingError::InsufficientMaterialBalance { .. } => ErrorKind::Resource,
            CraftingError::MissingMaterials { .. } => ErrorKind::Resource,
            CraftingError::ArithmeticOverflow => ErrorKind::Arithmetic,
        }
    }
}

/// Failures of the recipe registry.
#[derive(Clone, Copy, Debug, PartialEq, Eq, Structural)]
pub enum RecipeError {
    /// Material kinds and amounts differ in number.
    InputMismatch,
    /// Result kinds and weights differ in number.
    OutputMismatch,
    NoMaterials,
    NoResults,
    /// The result weights sum to zero.
    ZeroTotalWeight,
    AlreadyApproved,
    SelfApproval,
    InvalidSuccessRate,
    RecipeNotSecret,
    AlreadyDiscovered,
    DiscoveryFailed,
    UnauthorizedCaller,
    HintTooLong,
    NotDiscovered,
    /// No recipe has the given identifier.
    UnknownRecipe,
    /// A usage counter would overflow.
    CounterOverflow,
}

impl RecipeError {
    /// The class of the failure.
    pub open spec fn kind_spec(self) -> ErrorKind {
        match self {
            RecipeError::InputMismatch => ErrorKind::Validation,
            RecipeError::OutputMismatch => ErrorKind::Validation,
            RecipeError::NoMaterials => ErrorKind::Validation,
            RecipeError::NoResults => ErrorKind::Validation,
            RecipeError::ZeroTotalWeight => ErrorKind::Validation,
            RecipeError::InvalidSuccessRate => ErrorKind::Validation,
            RecipeError::HintTooLong => ErrorKind::Validation,
            RecipeError::UnknownRecipe => ErrorKind::Validation,
            RecipeError::AlreadyApproved => ErrorKind::Policy,
            RecipeError::SelfApproval => ErrorKind::Policy,
            RecipeError::RecipeNotSecret => ErrorKind::Policy,
            RecipeError::AlreadyDiscovered => ErrorKind::Policy,
            RecipeError::DiscoveryFailed => ErrorKind::Policy,
            RecipeError::UnauthorizedCaller => ErrorKind::Policy,
            RecipeError::NotDiscovered => ErrorKind::Policy,
            RecipeError::CounterOverflow => ErrorKind::Arithmetic,
        }
    }

    /// The class of the failure.
    pub fn kind(&self) -> (k: ErrorKind)
        ensures
            k == self.kind_spec(),
    {
        match self {
            RecipeError::InputMismatch => ErrorKind::Validation,
            RecipeError::OutputMismatch => ErrorKind::Validation,
            RecipeError::NoMaterials => ErrorKind::Validation,
            RecipeError::NoResults => ErrorKind::Validation,
            RecipeError::ZeroTotalWeight => ErrorKind::Validation,
            RecipeError::InvalidSuccessRate => ErrorKind::Validation,
            RecipeError::HintTooLong => ErrorKind::Validation,
            RecipeError::UnknownRecipe => ErrorKind::Validation,
            RecipeError::AlreadyApproved => ErrorKind::Policy,
            RecipeError::SelfApproval => ErrorKind::Policy,
            RecipeError::RecipeNotSecret => ErrorKind::Policy,
            RecipeError::AlreadyDiscovered => ErrorKind::Policy,
            RecipeError::DiscoveryFailed => ErrorKind::Policy,
            RecipeError::UnauthorizedCaller => ErrorKind::Policy,
            RecipeError::NotDiscovered => ErrorKind::Policy,
            RecipeError::CounterOverflow => ErrorKind::Arithmetic,
        }
    }
}

} // verus!
