//! The flat domain enumerations that surround the lifecycle core.
//!
//! These are closed value sets with no behavior of their own: each value
//! has a stable integer value and a canonical uppercase-with-underscores
//! string form, parsed case-insensitively. Several sets carry a
//! zero-valued member that stands for "value absent" rather than a real
//! category; callers that need to distinguish the two should treat the
//! zero member as they would an empty optional.

use vstd::prelude::*;

use crate::casefold::eq_ignore_ascii_case;
use crate::casefold::fold_eq;
use crate::errors::UnknownValue;

verus! {

/// The funding arrangement of a trading account.
#[derive(Copy, Clone, Debug, Hash, PartialEq, Eq, Structural)]
pub enum AccountType {
    Cash,
    Margin,
    Betting,
}

impl AccountType {
    /// The stable integer value of this AccountType.
    pub open spec fn value_spec(self) -> u8 {
        match self {
            AccountType::Cash => 1,
            AccountType::Margin => 2,
            AccountType::Betting => 3,
        }
    }

    /// The AccountType value with integer value `v`, if there is one.
    pub open spec fn from_value_spec(v: u8) -> Option<AccountType> {
        if v == 1 {
            Some(AccountType::Cash)
        } else if v == 2 {
            Some(AccountType::Margin)
        } else if v == 3 {
            Some(AccountType::Betting)
        } else {
            None
        }
    }

    /// The canonical string form, uppercase with underscores.
    pub open spec fn name_spec(self) -> Seq<char> {
        match self {
            AccountType::Cash => "CASH"@,
            AccountType::Margin => "MARGIN"@,
            AccountType::Betting => "BETTING"@,
        }
    }

    /// Which value the character sequence `s` names, compared
    /// case-insensitively against each accepted string form.
    pub open spec fn parse_spec(s: Seq<char>) -> Option<AccountType> {
        if fold_eq(s, "CASH"@) {
            Some(AccountType::Cash)
        } else if fold_eq(s, "MARGIN"@) {
            Some(AccountType::Margin)
        } else if fold_eq(s, "BETTING"@) {
            Some(AccountType::Betting)
        } else {
            None
        }
    }

    /// Returns the stable integer value.
    pub fn value(self) -> (v: u8)
        ensures
            v == self.value_spec(),
    {
        match self {
            AccountType::Cash => 1,
            AccountType::Margin => 2,
            AccountType::Betting => 3,
        }
    }

    /// Returns the value with integer value `v`, or `None` when `v`
    /// is not the value of any AccountType.
    pub fn from_value(v: u8) -> (r: Option<AccountType>)
        ensures
            r == Self::from_value_spec(v),
    {
        if v == 1 {
            Some(AccountType::Cash)
        } else if v == 2 {
            Some(AccountType::Margin)
        } else if v == 3 {
            Some(AccountType::Betting)
        } else {
            None
        }
    }

    /// Returns the canonical string form.
    pub fn as_str(self) -> (r: &'static str)
        ensures
            r@ == self.name_spec(),
    {
        match self {
            AccountType::Cash => "CASH",
            AccountType::Margin => "MARGIN",
            AccountType::Betting => "BETTING",
        }
    }

    /// Parses a string form, case-insensitively. An unrecognized
    /// string is rejected outright, never coerced to a default value.
    pub fn from_str(s: &str) -> (r: Result<AccountType, UnknownValue>)
        ensures
            match r {
                Ok(v) => Self::parse_spec(s@) == Some(v),
                Err(e) => Self::parse_spec(s@) is None && e.value@ == s@,
            },
    {
        if eq_ignore_ascii_case(s, "CASH") {
            Ok(AccountType::Cash)
        } else if eq_ignore_ascii_case(s, "MARGIN") {
            Ok(AccountType::Margin)
        } else if eq_ignore_ascii_case(s, "BETTING") {
            Ok(AccountType::Betting)
        } else {
            Err(UnknownValue::new(s))
        }
    }
}

/// Where a bar was aggregated.
#[derive(Copy, Clone, Debug, Hash, PartialEq, Eq, Structural)]
pub enum AggregationSource {
    External,
    Internal,
}

impl AggregationSource {
    /// The stable integer value of this AggregationSource.
    pub open spec fn value_spec(self) -> u8 {
        match self {
            AggregationSource::External => 1,
            AggregationSource::Internal => 2,
        }
    }

    /// The AggregationSource value with integer value `v`, if there is one.
    pub open spec fn from_value_spec(v: u8) -> Option<AggregationSource> {
        if v == 1 {
            Some(AggregationSource::External)
        } else if v == 2 {
            Some(AggregationSource::Internal)
        } else {
            None
        }
    }

    /// The canonical string form, uppercase with underscores.
    pub open spec fn name_spec(self) -> Seq<char> {
        match self {
            AggregationSource::External => "EXTERNAL"@,
            AggregationSource::Internal => "INTERNAL"@,
        }
    }

    /// Which value the character sequence `s` names, compared
    /// case-insensitively against each accepted string form.
    pub open spec fn parse_spec(s: Seq<char>) -> Option<AggregationSource> {
        if fold_eq(s, "EXTERNAL"@) {
            Some(AggregationSource::External)
        } else if fold_eq(s, "INTERNAL"@) {
            Some(AggregationSource::Internal)
        } else {
            None
        }
    }

    /// Returns the stable integer value.
    pub fn value(self) -> (v: u8)
        ensures
            v == self.value_spec(),
    {
        match self {
            AggregationSource::External => 1,
            AggregationSource::Internal => 2,
        }
    }

    /// Returns the value with integer value `v`, or `None` when `v`
    /// is not the value of any AggregationSource.
    pub fn from_value(v: u8) -> (r: Option<AggregationSource>)
        ensures
            r == Self::from_value_spec(v),
    {
        if v == 1 {
            Some(AggregationSource::External)
        } else if v == 2 {
            Some(AggregationSource::Internal)
        } else {
            None
        }
    }

    /// Returns the canonical string form.
    pub fn as_str(self) -> (r: &'static str)
        ensures
            r@ == self.name_spec(),
    {
        match self {
            AggregationSource::External => "EXTERNAL",
            AggregationSource::Internal => "INTERNAL",
        }
    }

    /// Parses a string form, case-insensitively. An unrecognized
    /// string is rejected outright, never coerced to a default value.
    pub fn from_str(s: &str) -> (r: Result<AggregationSource, UnknownValue>)
        ensures
            match r {
                Ok(v) => Self::parse_spec(s@) == Some(v),
                Err(e) => Self::parse_spec(s@) is None && e.value@ == s@,
            },
    {
        if eq_ignore_ascii_case(s, "EXTERNAL") {
            Ok(AggregationSource::External)
        } else if eq_ignore_ascii_case(s, "INTERNAL") {
            Ok(AggregationSource::Internal)
        } else {
            Err(UnknownValue::new(s))
        }
    }
}

/// The side of the aggressing order in a trade; the zero value stands
/// for "no aggressor recorded".
#[derive(Copy, Clone, Debug, Hash, PartialEq, Eq, Structural)]
pub enum AggressorSide {
    NoAggressor,
    Buyer,
    Seller,
}

impl AggressorSide {
    /// The stable integer value of this AggressorSide.
    pub open spec fn value_spec(self) -> u8 {
        match self {
            AggressorSide::NoAggressor => 0,
            AggressorSide::Buyer => 1,
            AggressorSide::Seller => 2,
        }
    }

    /// The AggressorSide value with integer value `v`, if there is one.
    pub open spec fn from_value_spec(v: u8) -> Option<AggressorSide> {
        if v == 0 {
            Some(AggressorSide::NoAggressor)
        } else if v == 1 {
            Some(AggressorSide::Buyer)
        } else if v == 2 {
            Some(AggressorSide::Seller)
        } else {
            None
        }
    }

    /// The canonical string form, uppercase with underscores.
    pub open spec fn name_spec(self) -> Seq<char> {
        match self {
            AggressorSide::NoAggressor => "NO_AGGRESSOR"@,
            AggressorSide::Buyer => "BUYER"@,
            AggressorSide::Seller => "SELLER"@,
        }
    }

    /// Which value the character sequence `s` names, compared
    /// case-insensitively against each accepted string form.
    pub open spec fn parse_spec(s: Seq<char>) -> Option<AggressorSide> {
        if fold_eq(s, "NO_AGGRESSOR"@) {
            Some(AggressorSide::NoAggressor)
        } else if fold_eq(s, "BUYER"@) {
            Some(AggressorSide::Buyer)
        } else if fold_eq(s, "SELLER"@) {
            Some(AggressorSide::Seller)
        } else {
            None
        }
    }

    /// Returns the stable integer value.
    pub fn value(self) -> (v: u8)
        ensures
            v == self.value_spec(),
    {
        match self {
            AggressorSide::NoAggressor => 0,
            AggressorSide::Buyer => 1,
            AggressorSide::Seller => 2,
        }
    }

    /// Returns the value with integer value `v`, or `None` when `v`
    /// is not the value of any AggressorSide.
    pub fn from_value(v: u8) -> (r: Option<AggressorSide>)
        ensures
            r == Self::from_value_spec(v),
    {
        if v == 0 {
            Some(AggressorSide::NoAggressor)
        } else if v == 1 {
            Some(AggressorSide::Buyer)
        } else if v == 2 {
            Some(AggressorSide::Seller)
        } else {
            None
        }
    }

    /// Returns the canonical string form.
    pub fn as_str(self) -> (r: &'static str)
        ensures
            r@ == self.name_spec(),
    {
        match self {
            AggressorSide::NoAggressor => "NO_AGGRESSOR",
            AggressorSide::Buyer => "BUYER",
            AggressorSide::Seller => "SELLER",
        }
    }

    /// Parses a string form, case-insensitively. An unrecognized
    /// string is rejected outright, never coerced to a default value.
    pub fn from_str(s: &str) -> (r: Result<AggressorSide, UnknownValue>)
        ensures
            match r {
                Ok(v) => Self::parse_spec(s@) == Some(v),
                Err(e) => Self::parse_spec(s@) is None && e.value@ == s@,
            },
    {
        if eq_ignore_ascii_case(s, "NO_AGGRESSOR") {
            Ok(AggressorSide::NoAggressor)
        } else if eq_ignore_ascii_case(s, "BUYER") {
            Ok(AggressorSide::Buyer)
        } else if eq_ignore_ascii_case(s, "SELLER") {
            Ok(AggressorSide::Seller)
        } else {
            Err(UnknownValue::new(s))
        }
    }
}

/// The broad class of a tradable asset.
#[derive(Copy, Clone, Debug, Hash, PartialEq, Eq, Structural)]
pub enum AssetClass {
    FX,
    Equity,
    Commodity,
    Metal,
    Energy,
    Bond,
    Index,
    Cryptocurrency,
    SportsBetting,
}

impl AssetClass {
    /// The stable integer value of this AssetClass.
    pub open spec fn value_spec(self) -> u8 {
        match self {
            AssetClass::FX => 1,
            AssetClass::Equity => 2,
            AssetClass::Commodity => 3,
            AssetClass::Metal => 4,
            AssetClass::Energy => 5,
            AssetClass::Bond => 6,
            AssetClass::Index => 7,
            AssetClass::Cryptocurrency => 8,
            AssetClass::SportsBetting => 9,
        }
    }

    /// The AssetClass value with integer value `v`, if there is one.
    pub open spec fn from_value_spec(v: u8) -> Option<AssetClass> {
        if v == 1 {
            Some(AssetClass::FX)
        } else if v == 2 {
            Some(AssetClass::Equity)
        } else if v == 3 {
            Some(AssetClass::Commodity)
        } else if v == 4 {
            Some(AssetClass::Metal)
        } else if v == 5 {
            Some(AssetClass::Energy)
        } else if v == 6 {
            Some(AssetClass::Bond)
        } else if v == 7 {
            Some(AssetClass::Index)
        } else if v == 8 {
            Some(AssetClass::Cryptocurrency)
        } else if v == 9 {
            Some(AssetClass::SportsBetting)
        } else {
            None
        }
    }

    /// The canonical string form, uppercase with underscores.
    pub open spec fn name_spec(self) -> Seq<char> {
        match self {
            AssetClass::FX => "FX"@,
            AssetClass::Equity => "EQUITY"@,
            AssetClass::Commodity => "COMMODITY"@,
            AssetClass::Metal => "METAL"@,
            AssetClass::Energy => "ENERGY"@,
            AssetClass::Bond => "BOND"@,
            AssetClass::Index => "INDEX"@,
            AssetClass::Cryptocurrency => "CRYPTOCURRENCY"@,
            AssetClass::SportsBetting => "SPORTS_BETTING"@,
        }
    }

    /// Which value the character sequence `s` names, compared
    /// case-insensitively against each accepted string form.
    pub open spec fn parse_spec(s: Seq<char>) -> Option<AssetClass> {
        if fold_eq(s, "FX"@) {
            Some(AssetClass::FX)
        } else if fold_eq(s, "EQUITY"@) {
            Some(AssetClass::Equity)
        } else if fold_eq(s, "COMMODITY"@) {
            Some(AssetClass::Commodity)
        } else if fold_eq(s, "METAL"@) {
            Some(AssetClass::Metal)
        } else if fold_eq(s, "ENERGY"@) {
            Some(AssetClass::Energy)
        } else if fold_eq(s, "BOND"@) {
            Some(AssetClass::Bond)
        } else if fold_eq(s, "INDEX"@) {
            Some(AssetClass::Index)
        } else if fold_eq(s, "CRYPTOCURRENCY"@) {
            Some(AssetClass::Cryptocurrency)
        } else if fold_eq(s, "SPORTS_BETTING"@) {
            Some(AssetClass::SportsBetting)
        } else {
            None
        }
    }

    /// Returns the stable integer value.
    pub fn value(self) -> (v: u8)
        ensures
            v == self.value_spec(),
    {
        match self {
            AssetClass::FX => 1,
            AssetClass::Equity => 2,
            AssetClass::Commodity => 3,
            AssetClass::Metal => 4,
            AssetClass::Energy => 5,
            AssetClass::Bond => 6,
            AssetClass::Index => 7,
            AssetClass::Cryptocurrency => 8,
            AssetClass::SportsBetting => 9,
        }
    }

    /// Returns the value with integer value `v`, or `None` when `v`
    /// is not the value of any AssetClass.
    pub fn from_value(v: u8) -> (r: Option<AssetClass>)
        ensures
            r == Self::from_value_spec(v),
    {
        if v == 1 {
            Some(AssetClass::FX)
        } else if v == 2 {
            Some(AssetClass::Equity)
        } else if v == 3 {
            Some(AssetClass::Commodity)
        } else if v == 4 {
            Some(AssetClass::Metal)
        } else if v == 5 {
            Some(AssetClass::Energy)
        } else if v == 6 {
            Some(AssetClass::Bond)
        } else if v == 7 {
            Some(AssetClass::Index)
        } else if v == 8 {
            Some(AssetClass::Cryptocurrency)
        } else if v == 9 {
            Some(AssetClass::SportsBetting)
        } else {
            None
        }
    }

    /// Returns the canonical string form.
    pub fn as_str(self) -> (r: &'static str)
        ensures
            r@ == self.name_spec(),
    {
        match self {
            AssetClass::FX => "FX",
            AssetClass::Equity => "EQUITY",
            AssetClass::Commodity => "COMMODITY",
            AssetClass::Metal => "METAL",
            AssetClass::Energy => "ENERGY",
            AssetClass::Bond => "BOND",
            AssetClass::Index => "INDEX",
            AssetClass::Cryptocurrency => "CRYPTOCURRENCY",
            AssetClass::SportsBetting => "SPORTS_BETTING",
        }
    }

    /// Parses a string form, case-insensitively. An unrecognized
    /// string is rejected outright, never coerced to a default value.
    pub fn from_str(s: &str) -> (r: Result<AssetClass, UnknownValue>)
        ensures
            match r {
                Ok(v) => Self::parse_spec(s@) == Some(v),
                Err(e) => Self::parse_spec(s@) is None && e.value@ == s@,
            },
    {
        if eq_ignore_ascii_case(s, "FX") {
            Ok(AssetClass::FX)
        } else if eq_ignore_ascii_case(s, "EQUITY") {
            Ok(AssetClass::Equity)
        } else if eq_ignore_ascii_case(s, "COMMODITY") {
            Ok(AssetClass::Commodity)
        } else if eq_ignore_ascii_case(s, "METAL") {
            Ok(AssetClass::Metal)
        } else if eq_ignore_ascii_case(s, "ENERGY") {
            Ok(AssetClass::Energy)
        } else if eq_ignore_ascii_case(s, "BOND") {
            Ok(AssetClass::Bond)
        } else if eq_ignore_ascii_case(s, "INDEX") {
            Ok(AssetClass::Index)
        } else if eq_ignore_ascii_case(s, "CRYPTOCURRENCY") {
            Ok(AssetClass::Cryptocurrency)
        } else if eq_ignore_ascii_case(s, "SPORTS_BETTING") {
            Ok(AssetClass::SportsBetting)
        } else {
            Err(UnknownValue::new(s))
        }
    }
}

/// The contract type of a tradable instrument.
#[derive(Copy, Clone, Debug, Hash, PartialEq, Eq, Structural)]
pub enum AssetType {
    Spot,
    Swap,
    Future,
    Forward,
    Cfd,
    Option,
    Warrant,
}

impl AssetType {
    /// The stable integer value of this AssetType.
    pub open spec fn value_spec(self) -> u8 {
        match self {
            AssetType::Spot => 1,
            AssetType::Swap => 2,
            AssetType::Future => 3,
            AssetType::Forward => 4,
            AssetType::Cfd => 5,
            AssetType::Option => 6,
            AssetType::Warrant => 7,
        }
    }

    /// The AssetType value with integer value `v`, if there is one.
    pub open spec fn from_value_spec(v: u8) -> Option<AssetType> {
        if v == 1 {
            Some(AssetType::Spot)
        } else if v == 2 {
            Some(AssetType::Swap)
        } else if v == 3 {
            Some(AssetType::Future)
        } else if v == 4 {
            Some(AssetType::Forward)
        } else if v == 5 {
            Some(AssetType::Cfd)
        } else if v == 6 {
            Some(AssetType::Option)
        } else if v == 7 {
            Some(AssetType::Warrant)
        } else {
            None
        }
    }

    /// The canonical string form, uppercase with underscores.
    pub open spec fn name_spec(self) -> Seq<char> {
        match self {
            AssetType::Spot => "SPOT"@,
            AssetType::Swap => "SWAP"@,
            AssetType::Future => "FUTURE"@,
            AssetType::Forward => "FORWARD"@,
            AssetType::Cfd => "CFD"@,
            AssetType::Option => "OPTION"@,
            AssetType::Warrant => "WARRANT"@,
        }
    }

    /// Which value the character sequence `s` names, compared
    /// case-insensitively against each accepted string form.
    pub open spec fn parse_spec(s: Seq<char>) -> Option<AssetType> {
        if fold_eq(s, "SPOT"@) {
            Some(AssetType::Spot)
        } else if fold_eq(s, "SWAP"@) {
            Some(AssetType::Swap)
        } else if fold_eq(s, "FUTURE"@) {
            Some(AssetType::Future)
        } else if fold_eq(s, "FORWARD"@) {
            Some(AssetType::Forward)
        } else if fold_eq(s, "CFD"@) {
            Some(AssetType::Cfd)
        } else if fold_eq(s, "OPTION"@) {
            Some(AssetType::Option)
        } else if fold_eq(s, "WARRANT"@) {
            Some(AssetType::Warrant)
        } else {
            None
        }
    }

    /// Returns the stable integer value.
    pub fn value(self) -> (v: u8)
        ensures
            v == self.value_spec(),
    {
        match self {
            AssetType::Spot => 1,
            AssetType::Swap => 2,
            AssetType::Future => 3,
            AssetType::Forward => 4,
            AssetType::Cfd => 5,
            AssetType::Option => 6,
            AssetType::Warrant => 7,
        }
    }

    /// Returns the value with integer value `v`, or `None` when `v`
    /// is not the value of any AssetType.
    pub fn from_value(v: u8) -> (r: Option<AssetType>)
        ensures
            r == Self::from_value_spec(v),
    {
        if v == 1 {
            Some(AssetType::Spot)
        } else if v == 2 {
            Some(AssetType::Swap)
        } else if v == 3 {
            Some(AssetType::Future)
        } else if v == 4 {
            Some(AssetType::Forward)
        } else if v == 5 {
            Some(AssetType::Cfd)
        } else if v == 6 {
            Some(AssetType::Option)
        } else if v == 7 {
            Some(AssetType::Warrant)
        } else {
            None
        }
    }

    /// Returns the canonical string form.
    pub fn as_str(self) -> (r: &'static str)
        ensures
            r@ == self.name_spec(),
    {
        match self {
            AssetType::Spot => "SPOT",
            AssetType::Swap => "SWAP",
            AssetType::Future => "FUTURE",
            AssetType::Forward => "FORWARD",
            AssetType::Cfd => "CFD",
            AssetType::Option => "OPTION",
            AssetType::Warrant => "WARRANT",
        }
    }

    /// Parses a string form, case-insensitively. An unrecognized
    /// string is rejected outright, never coerced to a default value.
    pub fn from_str(s: &str) -> (r: Result<AssetType, UnknownValue>)
        ensures
            match r {
                Ok(v) => Self::parse_spec(s@) == Some(v),
                Err(e) => Self::parse_spec(s@) is None && e.value@ == s@,
            },
    {
        if eq_ignore_ascii_case(s, "SPOT") {
            Ok(AssetType::Spot)
        } else if eq_ignore_ascii_case(s, "SWAP") {
            Ok(AssetType::Swap)
        } else if eq_ignore_ascii_case(s, "FUTURE") {
            Ok(AssetType::Future)
        } else if eq_ignore_ascii_case(s, "FORWARD") {
            Ok(AssetType::Forward)
        } else if eq_ignore_ascii_case(s, "CFD") {
            Ok(AssetType::Cfd)
        } else if eq_ignore_ascii_case(s, "OPTION") {
            Ok(AssetType::Option)
        } else if eq_ignore_ascii_case(s, "WARRANT") {
            Ok(AssetType::Warrant)
        } else {
            Err(UnknownValue::new(s))
        }
    }
}

/// The rule by which ticks are aggregated into bars.
#[derive(Copy, Clone, Debug, Hash, PartialEq, Eq, Structural)]
pub enum BarAggregation {
    Tick,
    TickImbalance,
    TickRuns,
    Volume,
    VolumeImbalance,
    VolumeRuns,
    Value,
    ValueImbalance,
    ValueRuns,
    Millisecond,
    Second,
    Minute,
    Hour,
    Day,
    Week,
    Month,
}

impl BarAggregation {
    /// The stable integer value of this BarAggregation.
    pub open spec fn value_spec(self) -> u8 {
        match self {
            BarAggregation::Tick => 1,
            BarAggregation::TickImbalance => 2,
            BarAggregation::TickRuns => 3,
            BarAggregation::Volume => 4,
            BarAggregation::VolumeImbalance => 5,
            BarAggregation::VolumeRuns => 6,
            BarAggregation::Value => 7,
            BarAggregation::ValueImbalance => 8,
            BarAggregation::ValueRuns => 9,
            BarAggregation::Millisecond => 10,
            BarAggregation::Second => 11,
            BarAggregation::Minute => 12,
            BarAggregation::Hour => 13,
            BarAggregation::Day => 14,
            BarAggregation::Week => 15,
            BarAggregation::Month => 16,
        }
    }

    /// The BarAggregation value with integer value `v`, if there is one.
    pub open spec fn from_value_spec(v: u8) -> Option<BarAggregation> {
        if v == 1 {
            Some(BarAggregation::Tick)
        } else if v == 2 {
            Some(BarAggregation::TickImbalance)
        } else if v == 3 {
            Some(BarAggregation::TickRuns)
        } else if v == 4 {
            Some(BarAggregation::Volume)
        } else if v == 5 {
            Some(BarAggregation::VolumeImbalance)
        } else if v == 6 {
            Some(BarAggregation::VolumeRuns)
        } else if v == 7 {
            Some(BarAggregation::Value)
        } else if v == 8 {
            Some(BarAggregation::ValueImbalance)
        } else if v == 9 {
            Some(BarAggregation::ValueRuns)
        } else if v == 10 {
            Some(BarAggregation::Millisecond)
        } else if v == 11 {
            Some(BarAggregation::Second)
        } else if v == 12 {
            Some(BarAggregation::Minute)
        } else if v == 13 {
            Some(BarAggregation::Hour)
        } else if v == 14 {
            Some(BarAggregation::Day)
        } else if v == 15 {
            Some(BarAggregation::Week)
        } else if v == 16 {
            Some(BarAggregation::Month)
        } else {
            None
        }
    }

    /// The canonical string form, uppercase with underscores.
    pub open spec fn name_spec(self) -> Seq<char> {
        match self {
            BarAggregation::Tick => "TICK"@,
            BarAggregation::TickImbalance => "TICK_IMBALANCE"@,
            BarAggregation::TickRuns => "TICK_RUNS"@,
            BarAggregation::Volume => "VOLUME"@,
            BarAggregation::VolumeImbalance => "VOLUME_IMBALANCE"@,
            BarAggregation::VolumeRuns => "VOLUME_RUNS"@,
            BarAggregation::Value => "VALUE"@,
            BarAggregation::ValueImbalance => "VALUE_IMBALANCE"@,
            BarAggregation::ValueRuns => "VALUE_RUNS"@,
            BarAggregation::Millisecond => "MILLISECOND"@,
            BarAggregation::Second => "SECOND"@,
            BarAggregation::Minute => "MINUTE"@,
            BarAggregation::Hour => "HOUR"@,
            BarAggregation::Day => "DAY"@,
            BarAggregation::Week => "WEEK"@,
            BarAggregation::Month => "MONTH"@,
        }
    }

    /// Which value the character sequence `s` names, compared
    /// case-insensitively against each accepted string form.
    pub open spec fn parse_spec(s: Seq<char>) -> Option<BarAggregation> {
        if fold_eq(s, "TICK"@) {
            Some(BarAggregation::Tick)
        } else if fold_eq(s, "TICK_IMBALANCE"@) {
            Some(BarAggregation::TickImbalance)
        } else if fold_eq(s, "TICK_RUNS"@) {
            Some(BarAggregation::TickRuns)
        } else if fold_eq(s, "VOLUME"@) {
            Some(BarAggregation::Volume)
        } else if fold_eq(s, "VOLUME_IMBALANCE"@) {
            Some(BarAggregation::VolumeImbalance)
        } else if fold_eq(s, "VOLUME_RUNS"@) {
            Some(BarAggregation::VolumeRuns)
        } else if fold_eq(s, "VALUE"@) {
            Some(BarAggregation::Value)
        } else if fold_eq(s, "VALUE_IMBALANCE"@) {
            Some(BarAggregation::ValueImbalance)
        } else if fold_eq(s, "VALUE_RUNS"@) {
            Some(BarAggregation::ValueRuns)
        } else if fold_eq(s, "MILLISECOND"@) {
            Some(BarAggregation::Millisecond)
        } else if fold_eq(s, "SECOND"@) {
            Some(BarAggregation::Second)
        } else if fold_eq(s, "MINUTE"@) {
            Some(BarAggregation::Minute)
        } else if fold_eq(s, "HOUR"@) {
            Some(BarAggregation::Hour)
        } else if fold_eq(s, "DAY"@) {
            Some(BarAggregation::Day)
        } else if fold_eq(s, "WEEK"@) {
            Some(BarAggregation::Week)
        } else if fold_eq(s, "MONTH"@) {
            Some(BarAggregation::Month)
        } else {
            None
        }
    }

    /// Returns the stable integer value.
    pub fn value(self) -> (v: u8)
        ensures
            v == self.value_spec(),
    {
        match self {
            BarAggregation::Tick => 1,
            BarAggregation::TickImbalance => 2,
            BarAggregation::TickRuns => 3,
            BarAggregation::Volume => 4,
            BarAggregation::VolumeImbalance => 5,
            BarAggregation::VolumeRuns => 6,
            BarAggregation::Value => 7,
            BarAggregation::ValueImbalance => 8,
            BarAggregation::ValueRuns => 9,
            BarAggregation::Millisecond => 10,
            BarAggregation::Second => 11,
            BarAggregation::Minute => 12,
            BarAggregation::Hour => 13,
            BarAggregation::Day => 14,
            BarAggregation::Week => 15,
            BarAggregation::Month => 16,
        }
    }

    /// Returns the value with integer value `v`, or `None` when `v`
    /// is not the value of any BarAggregation.
    pub fn from_value(v: u8) -> (r: Option<BarAggregation>)
        ensures
            r == Self::from_value_spec(v),
    {
        if v == 1 {
            Some(BarAggregation::Tick)
        } else if v == 2 {
            Some(BarAggregation::TickImbalance)
        } else if v == 3 {
            Some(BarAggregation::TickRuns)
        } else if v == 4 {
            Some(BarAggregation::Volume)
        } else if v == 5 {
            Some(BarAggregation::VolumeImbalance)
        } else if v == 6 {
            Some(BarAggregation::VolumeRuns)
        } else if v == 7 {
            Some(BarAggregation::Value)
        } else if v == 8 {
            Some(BarAggregation::ValueImbalance)
        } else if v == 9 {
            Some(BarAggregation::ValueRuns)
        } else if v == 10 {
            Some(BarAggregation::Millisecond)
        } else if v == 11 {
            Some(BarAggregation::Second)
        } else if v == 12 {
            Some(BarAggregation::Minute)
        } else if v == 13 {
            Some(BarAggregation::Hour)
        } else if v == 14 {
            Some(BarAggregation::Day)
        } else if v == 15 {
            Some(BarAggregation::Week)
        } else if v == 16 {
            Some(BarAggregation::Month)
        } else {
            None
        }
    }

    /// Returns the canonical string form.
    pub fn as_str(self) -> (r: &'static str)
        ensures
            r@ == self.name_spec(),
    {
        match self {
            BarAggregation::Tick => "TICK",
            BarAggregation::TickImbalance => "TICK_IMBALANCE",
            BarAggregation::TickRuns => "TICK_RUNS",
            BarAggregation::Volume => "VOLUME",
            BarAggregation::VolumeImbalance => "VOLUME_IMBALANCE",
            BarAggregation::VolumeRuns => "VOLUME_RUNS",
            BarAggregation::Value => "VALUE",
            BarAggregation::ValueImbalance => "VALUE_IMBALANCE",
            BarAggregation::ValueRuns => "VALUE_RUNS",
            BarAggregation::Millisecond => "MILLISECOND",
            BarAggregation::Second => "SECOND",
            BarAggregation::Minute => "MINUTE",
            BarAggregation::Hour => "HOUR",
            BarAggregation::Day => "DAY",
            BarAggregation::Week => "WEEK",
            BarAggregation::Month => "MONTH",
        }
    }

    /// Parses a string form, case-insensitively. An unrecognized
    /// string is rejected outright, never coerced to a default value.
    pub fn from_str(s: &str) -> (r: Result<BarAggregation, UnknownValue>)
        ensures
            match r {
                Ok(v) => Self::parse_spec(s@) == Some(v),
                Err(e) => Self::parse_spec(s@) is None && e.value@ == s@,
            },
    {
        if eq_ignore_ascii_case(s, "TICK") {
            Ok(BarAggregation::Tick)
        } else if eq_ignore_ascii_case(s, "TICK_IMBALANCE") {
            Ok(BarAggregation::TickImbalance)
        } else if eq_ignore_ascii_case(s, "TICK_RUNS") {
            Ok(BarAggregation::TickRuns)
        } else if eq_ignore_ascii_case(s, "VOLUME") {
            Ok(BarAggregation::Volume)
        } else if eq_ignore_ascii_case(s, "VOLUME_IMBALANCE") {
            Ok(BarAggregation::VolumeImbalance)
        } else if eq_ignore_ascii_case(s, "VOLUME_RUNS") {
            Ok(BarAggregation::VolumeRuns)
        } else if eq_ignore_ascii_case(s, "VALUE") {
            Ok(BarAggregation::Value)
        } else if eq_ignore_ascii_case(s, "VALUE_IMBALANCE") {
            Ok(BarAggregation::ValueImbalance)
        } else if eq_ignore_ascii_case(s, "VALUE_RUNS") {
            Ok(BarAggregation::ValueRuns)
        } else if eq_ignore_ascii_case(s, "MILLISECOND") {
            Ok(BarAggregation::Millisecond)
        } else if eq_ignore_ascii_case(s, "SECOND") {
            Ok(BarAggregation::Second)
        } else if eq_ignore_ascii_case(s, "MINUTE") {
            Ok(BarAggregation::Minute)
        } else if eq_ignore_ascii_case(s, "HOUR") {
            Ok(BarAggregation::Hour)
        } else if eq_ignore_ascii_case(s, "DAY") {
            Ok(BarAggregation::Day)
        } else if eq_ignore_ascii_case(s, "WEEK") {
            Ok(BarAggregation::Week)
        } else if eq_ignore_ascii_case(s, "MONTH") {
            Ok(BarAggregation::Month)
        } else {
            Err(UnknownValue::new(s))
        }
    }
}

/// An operation on an order book.
#[derive(Copy, Clone, Debug, Hash, PartialEq, Eq, Structural)]
pub enum BookAction {
    Add,
    Update,
    Delete,
    Clear,
}

impl BookAction {
    /// The stable integer value of this BookAction.
    pub open spec fn value_spec(self) -> u8 {
        match self {
            BookAction::Add => 1,
            BookAction::Update => 2,
            BookAction::Delete => 3,
            BookAction::Clear => 4,
        }
    }

    /// The BookAction value with integer value `v`, if there is one.
    pub open spec fn from_value_spec(v: u8) -> Option<BookAction> {
        if v == 1 {
            Some(BookAction::Add)
        } else if v == 2 {
            Some(BookAction::Update)
        } else if v == 3 {
            Some(BookAction::Delete)
        } else if v == 4 {
            Some(BookAction::Clear)
        } else {
            None
        }
    }

    /// The canonical string form, uppercase with underscores.
    pub open spec fn name_spec(self) -> Seq<char> {
        match self {
            BookAction::Add => "ADD"@,
            BookAction::Update => "UPDATE"@,
            BookAction::Delete => "DELETE"@,
            BookAction::Clear => "CLEAR"@,
        }
    }

    /// Which value the character sequence `s` names, compared
    /// case-insensitively against each accepted string form.
    pub open spec fn parse_spec(s: Seq<char>) -> Option<BookAction> {
        if fold_eq(s, "ADD"@) {
            Some(BookAction::Add)
        } else if fold_eq(s, "UPDATE"@) {
            Some(BookAction::Update)
        } else if fold_eq(s, "DELETE"@) {
            Some(BookAction::Delete)
        } else if fold_eq(s, "CLEAR"@) {
            Some(BookAction::Clear)
        } else {
            None
        }
    }

    /// Returns the stable integer value.
    pub fn value(self) -> (v: u8)
        ensures
            v == self.value_spec(),
    {
        match self {
            BookAction::Add => 1,
            BookAction::Update => 2,
            BookAction::Delete => 3,
            BookAction::Clear => 4,
        }
    }

    /// Returns the value with integer value `v`, or `None` when `v`
    /// is not the value of any BookAction.
    pub fn from_value(v: u8) -> (r: Option<BookAction>)
        ensures
            r == Self::from_value_spec(v),
    {
        if v == 1 {
            Some(BookAction::Add)
        } else if v == 2 {
            Some(BookAction::Update)
        } else if v == 3 {
            Some(BookAction::Delete)
        } else if v == 4 {
            Some(BookAction::Clear)
        } else {
            None
        }
    }

    /// Returns the canonical string form.
    pub fn as_str(self) -> (r: &'static str)
        ensures
            r@ == self.name_spec(),
    {
        match self {
            BookAction::Add => "ADD",
            BookAction::Update => "UPDATE",
            BookAction::Delete => "DELETE",
            BookAction::Clear => "CLEAR",
        }
    }

    /// Parses a string form, case-insensitively. An unrecognized
    /// string is rejected outright, never coerced to a default value.
    pub fn from_str(s: &str) -> (r: Result<BookAction, UnknownValue>)
        ensures
            match r {
                Ok(v) => Self::parse_spec(s@) == Some(v),
                Err(e) => Self::parse_spec(s@) is None && e.value@ == s@,
            },
    {
        if eq_ignore_ascii_case(s, "ADD") {
            Ok(BookAction::Add)
        } else if eq_ignore_ascii_case(s, "UPDATE") {
            Ok(BookAction::Update)
        } else if eq_ignore_ascii_case(s, "DELETE") {
            Ok(BookAction::Delete)
        } else if eq_ignore_ascii_case(s, "CLEAR") {
            Ok(BookAction::Clear)
        } else {
            Err(UnknownValue::new(s))
        }
    }
}

/// The granularity of an order book.
#[derive(Copy, Clone, Debug, Hash, PartialEq, Eq, Structural)]
pub enum BookType {
    L1_TBBO,
    L2_MBP,
    L3_MBO,
}

impl BookType {
    /// The stable integer value of this BookType.
    pub open spec fn value_spec(self) -> u8 {
        match self {
            BookType::L1_TBBO => 1,
            BookType::L2_MBP => 2,
            BookType::L3_MBO => 3,
        }
    }

    /// The BookType value with integer value `v`, if there is one.
    pub open spec fn from_value_spec(v: u8) -> Option<BookType> {
        if v == 1 {
            Some(BookType::L1_TBBO)
        } else if v == 2 {
            Some(BookType::L2_MBP)
        } else if v == 3 {
            Some(BookType::L3_MBO)
        } else {
            None
        }
    }

    /// The canonical string form, uppercase with underscores.
    pub open spec fn name_spec(self) -> Seq<char> {
        match self {
            BookType::L1_TBBO => "L1_TBBO"@,
            BookType::L2_MBP => "L2_MBP"@,
            BookType::L3_MBO => "L3_MBO"@,
        }
    }

    /// Which value the character sequence `s` names, compared
    /// case-insensitively against each accepted string form.
    pub open spec fn parse_spec(s: Seq<char>) -> Option<BookType> {
        if fold_eq(s, "L1_TBBO"@) {
            Some(BookType::L1_TBBO)
        } else if fold_eq(s, "L2_MBP"@) {
            Some(BookType::L2_MBP)
        } else if fold_eq(s, "L3_MBO"@) {
            Some(BookType::L3_MBO)
        } else {
            None
        }
    }

    /// Returns the stable integer value.
    pub fn value(self) -> (v: u8)
        ensures
            v == self.value_spec(),
    {
        match self {
            BookType::L1_TBBO => 1,
            BookType::L2_MBP => 2,
            BookType::L3_MBO => 3,
        }
    }

    /// Returns the value with integer value `v`, or `None` when `v`
    /// is not the value of any BookType.
    pub fn from_value(v: u8) -> (r: Option<BookType>)
        ensures
            r == Self::from_value_spec(v),
    {
        if v == 1 {
            Some(BookType::L1_TBBO)
        } else if v == 2 {
            Some(BookType::L2_MBP)
        } else if v == 3 {
            Some(BookType::L3_MBO)
        } else {
            None
        }
    }

    /// Returns the canonical string form.
    pub fn as_str(self) -> (r: &'static str)
        ensures
            r@ == self.name_spec(),
    {
        match self {
            BookType::L1_TBBO => "L1_TBBO",
            BookType::L2_MBP => "L2_MBP",
            BookType::L3_MBO => "L3_MBO",
        }
    }

    /// Parses a string form, case-insensitively. An unrecognized
    /// string is rejected outright, never coerced to a default value.
    pub fn from_str(s: &str) -> (r: Result<BookType, UnknownValue>)
        ensures
            match r {
                Ok(v) => Self::parse_spec(s@) == Some(v),
                Err(e) => Self::parse_spec(s@) is None && e.value@ == s@,
            },
    {
        if eq_ignore_ascii_case(s, "L1_TBBO") {
            Ok(BookType::L1_TBBO)
        } else if eq_ignore_ascii_case(s, "L2_MBP") {
            Ok(BookType::L2_MBP)
        } else if eq_ignore_ascii_case(s, "L3_MBO") {
            Ok(BookType::L3_MBO)
        } else {
            Err(UnknownValue::new(s))
        }
    }
}

/// The contingency linking an order to others; the zero value stands
/// for "no contingency".
#[derive(Copy, Clone, Debug, Hash, PartialEq, Eq, Structural)]
pub enum ContingencyType {
    NoContingency,
    Oco,
    Oto,
    Ouo,
}

impl ContingencyType {
    /// The stable integer value of this ContingencyType.
    pub open spec fn value_spec(self) -> u8 {
        match self {
            ContingencyType::NoContingency => 0,
            ContingencyType::Oco => 1,
            ContingencyType::Oto => 2,
            ContingencyType::Ouo => 3,
        }
    }

    /// The ContingencyType value with integer value `v`, if there is one.
    pub open spec fn from_value_spec(v: u8) -> Option<ContingencyType> {
        if v == 0 {
            Some(ContingencyType::NoContingency)
        } else if v == 1 {
            Some(ContingencyType::Oco)
        } else if v == 2 {
            Some(ContingencyType::Oto)
        } else if v == 3 {
            Some(ContingencyType::Ouo)
        } else {
            None
        }
    }

    /// The canonical string form, uppercase with underscores.
    pub open spec fn name_spec(self) -> Seq<char> {
        match self {
            ContingencyType::NoContingency => "NO_CONTINGENCY"@,
            ContingencyType::Oco => "OCO"@,
            ContingencyType::Oto => "OTO"@,
            ContingencyType::Ouo => "OUO"@,
        }
    }

    /// Which value the character sequence `s` names, compared
    /// case-insensitively against each accepted string form.
    pub open spec fn parse_spec(s: Seq<char>) -> Option<ContingencyType> {
        if fold_eq(s, "NO_CONTINGENCY"@) {
            Some(ContingencyType::NoContingency)
        } else if fold_eq(s, "OCO"@) {
            Some(ContingencyType::Oco)
        } else if fold_eq(s, "OTO"@) {
            Some(ContingencyType::Oto)
        } else if fold_eq(s, "OUO"@) {
            Some(ContingencyType::Ouo)
        } else {
            None
        }
    }

    /// Returns the stable integer value.
    pub fn value(self) -> (v: u8)
        ensures
            v == self.value_spec(),
    {
        match self {
            ContingencyType::NoContingency => 0,
            ContingencyType::Oco => 1,
            ContingencyType::Oto => 2,
            ContingencyType::Ouo => 3,
        }
    }

    /// Returns the value with integer value `v`, or `None` when `v`
    /// is not the value of any ContingencyType.
    pub fn from_value(v: u8) -> (r: Option<ContingencyType>)
        ensures
            r == Self::from_value_spec(v),
    {
        if v == 0 {
            Some(ContingencyType::NoContingency)
        } else if v == 1 {
            Some(ContingencyType::Oco)
        } else if v == 2 {
            Some(ContingencyType::Oto)
        } else if v == 3 {
            Some(ContingencyType::Ouo)
        } else {
            None
        }
    }

    /// Returns the canonical string form.
    pub fn as_str(self) -> (r: &'static str)
        ensures
            r@ == self.name_spec(),
    {
        match self {
            ContingencyType::NoContingency => "NO_CONTINGENCY",
            ContingencyType::Oco => "OCO",
            ContingencyType::Oto => "OTO",
            ContingencyType::Ouo => "OUO",
        }
    }

    /// Parses a string form, case-insensitively. An unrecognized
    /// string is rejected outright, never coerced to a default value.
    pub fn from_str(s: &str) -> (r: Result<ContingencyType, UnknownValue>)
        ensures
            match r {
                Ok(v) => Self::parse_spec(s@) == Some(v),
                Err(e) => Self::parse_spec(s@) is None && e.value@ == s@,
            },
    {
        if eq_ignore_ascii_case(s, "NO_CONTINGENCY") {
            Ok(ContingencyType::NoContingency)
        } else if eq_ignore_ascii_case(s, "OCO") {
            Ok(ContingencyType::Oco)
        } else if eq_ignore_ascii_case(s, "OTO") {
            Ok(ContingencyType::Oto)
        } else if eq_ignore_ascii_case(s, "OUO") {
            Ok(ContingencyType::Ouo)
        } else {
            Err(UnknownValue::new(s))
        }
    }
}

/// Whether a currency is crypto or fiat.
#[derive(Copy, Clone, Debug, Hash, PartialEq, Eq, Structural)]
pub enum CurrencyType {
    Crypto,
    Fiat,
}

impl CurrencyType {
    /// The stable integer value of this CurrencyType.
    pub open spec fn value_spec(self) -> u8 {
        match self {
            CurrencyType::Crypto => 1,
            CurrencyType::Fiat => 2,
        }
    }

    /// The CurrencyType value with integer value `v`, if there is one.
    pub open spec fn from_value_spec(v: u8) -> Option<CurrencyType> {
        if v == 1 {
            Some(CurrencyType::Crypto)
        } else if v == 2 {
            Some(CurrencyType::Fiat)
        } else {
            None
        }
    }

    /// The canonical string form, uppercase with underscores.
    pub open spec fn name_spec(self) -> Seq<char> {
        match self {
            CurrencyType::Crypto => "CRYPTO"@,
            CurrencyType::Fiat => "FIAT"@,
        }
    }

    /// Which value the character sequence `s` names, compared
    /// case-insensitively against each accepted string form.
    pub open spec fn parse_spec(s: Seq<char>) -> Option<CurrencyType> {
        if fold_eq(s, "CRYPTO"@) {
            Some(CurrencyType::Crypto)
        } else if fold_eq(s, "FIAT"@) {
            Some(CurrencyType::Fiat)
        } else {
            None
        }
    }

    /// Returns the stable integer value.
    pub fn value(self) -> (v: u8)
        ensures
            v == self.value_spec(),
    {
        match self {
            CurrencyType::Crypto => 1,
            CurrencyType::Fiat => 2,
        }
    }

    /// Returns the value with integer value `v`, or `None` when `v`
    /// is not the value of any CurrencyType.
    pub fn from_value(v: u8) -> (r: Option<CurrencyType>)
        ensures
            r == Self::from_value_spec(v),
    {
        if v == 1 {
            Some(CurrencyType::Crypto)
        } else if v == 2 {
            Some(CurrencyType::Fiat)
        } else {
            None
        }
    }

    /// Returns the canonical string form.
    pub fn as_str(self) -> (r: &'static str)
        ensures
            r@ == self.name_spec(),
    {
        match self {
            CurrencyType::Crypto => "CRYPTO",
            CurrencyType::Fiat => "FIAT",
        }
    }

    /// Parses a string form, case-insensitively. An unrecognized
    /// string is rejected outright, never coerced to a default value.
    pub fn from_str(s: &str) -> (r: Result<CurrencyType, UnknownValue>)
        ensures
            match r {
                Ok(v) => Self::parse_spec(s@) == Some(v),
                Err(e) => Self::parse_spec(s@) is None && e.value@ == s@,
            },
    {
        if eq_ignore_ascii_case(s, "CRYPTO") {
            Ok(CurrencyType::Crypto)
        } else if eq_ignore_ascii_case(s, "FIAT") {
            Ok(CurrencyType::Fiat)
        } else {
            Err(UnknownValue::new(s))
        }
    }
}

/// How order book depth is expressed.
#[derive(Copy, Clone, Debug, Hash, PartialEq, Eq, Structural)]
pub enum DepthType {
    Volume,
    Exposure,
}

impl DepthType {
    /// The stable integer value of this DepthType.
    pub open spec fn value_spec(self) -> u8 {
        match self {
            DepthType::Volume => 1,
            DepthType::Exposure => 2,
        }
    }

    /// The DepthType value with integer value `v`, if there is one.
    pub open spec fn from_value_spec(v: u8) -> Option<DepthType> {
        if v == 1 {
            Some(DepthType::Volume)
        } else if v == 2 {
            Some(DepthType::Exposure)
        } else {
            None
        }
    }

    /// The canonical string form, uppercase with underscores.
    pub open spec fn name_spec(self) -> Seq<char> {
        match self {
            DepthType::Volume => "VOLUME"@,
            DepthType::Exposure => "EXPOSURE"@,
        }
    }

    /// Which value the character sequence `s` names, compared
    /// case-insensitively against each accepted string form.
    pub open spec fn parse_spec(s: Seq<char>) -> Option<DepthType> {
        if fold_eq(s, "VOLUME"@) {
            Some(DepthType::Volume)
        } else if fold_eq(s, "EXPOSURE"@) {
            Some(DepthType::Exposure)
        } else {
            None
        }
    }

    /// Returns the stable integer value.
    pub fn value(self) -> (v: u8)
        ensures
            v == self.value_spec(),
    {
        match self {
            DepthType::Volume => 1,
            DepthType::Exposure => 2,
        }
    }

    /// Returns the value with integer value `v`, or `None` when `v`
    /// is not the value of any DepthType.
    pub fn from_value(v: u8) -> (r: Option<DepthType>)
        ensures
            r == Self::from_value_spec(v),
    {
        if v == 1 {
            Some(DepthType::Volume)
        } else if v == 2 {
            Some(DepthType::Exposure)
        } else {
            None
        }
    }

    /// Returns the canonical string form.
    pub fn as_str(self) -> (r: &'static str)
        ensures
            r@ == self.name_spec(),
    {
        match self {
            DepthType::Volume => "VOLUME",
            DepthType::Exposure => "EXPOSURE",
        }
    }

    /// Parses a string form, case-insensitively. An unrecognized
    /// string is rejected outright, never coerced to a default value.
    pub fn from_str(s: &str) -> (r: Result<DepthType, UnknownValue>)
        ensures
            match r {
                Ok(v) => Self::parse_spec(s@) == Some(v),
                Err(e) => Self::parse_spec(s@) is None && e.value@ == s@,
            },
    {
        if eq_ignore_ascii_case(s, "VOLUME") {
            Ok(DepthType::Volume)
        } else if eq_ignore_ascii_case(s, "EXPOSURE") {
            Ok(DepthType::Exposure)
        } else {
            Err(UnknownValue::new(s))
        }
    }
}

/// Why an instrument was closed.
#[derive(Copy, Clone, Debug, Hash, PartialEq, Eq, Structural)]
pub enum InstrumentCloseType {
    EndOfSession,
    ContractExpired,
}

impl InstrumentCloseType {
    /// The stable integer value of this InstrumentCloseType.
    pub open spec fn value_spec(self) -> u8 {
        match self {
            InstrumentCloseType::EndOfSession => 1,
            InstrumentCloseType::ContractExpired => 2,
        }
    }

    /// The InstrumentCloseType value with integer value `v`, if there is one.
    pub open spec fn from_value_spec(v: u8) -> Option<InstrumentCloseType> {
        if v == 1 {
            Some(InstrumentCloseType::EndOfSession)
        } else if v == 2 {
            Some(InstrumentCloseType::ContractExpired)
        } else {
            None
        }
    }

    /// The canonical string form, uppercase with underscores.
    pub open spec fn name_spec(self) -> Seq<char> {
        match self {
            InstrumentCloseType::EndOfSession => "END_OF_SESSION"@,
            InstrumentCloseType::ContractExpired => "CONTRACT_EXPIRED"@,
        }
    }

    /// Which value the character sequence `s` names, compared
    /// case-insensitively against each accepted string form.
    pub open spec fn parse_spec(s: Seq<char>) -> Option<InstrumentCloseType> {
        if fold_eq(s, "END_OF_SESSION"@) {
            Some(InstrumentCloseType::EndOfSession)
        } else if fold_eq(s, "CONTRACT_EXPIRED"@) {
            Some(InstrumentCloseType::ContractExpired)
        } else {
            None
        }
    }

    /// Returns the stable integer value.
    pub fn value(self) -> (v: u8)
        ensures
            v == self.value_spec(),
    {
        match self {
            InstrumentCloseType::EndOfSession => 1,
            InstrumentCloseType::ContractExpired => 2,
        }
    }

    /// Returns the value with integer value `v`, or `None` when `v`
    /// is not the value of any InstrumentCloseType.
    pub fn from_value(v: u8) -> (r: Option<InstrumentCloseType>)
        ensures
            r == Self::from_value_spec(v),
    {
        if v == 1 {
            Some(InstrumentCloseType::EndOfSession)
        } else if v == 2 {
            Some(InstrumentCloseType::ContractExpired)
        } else {
            None
        }
    }

    /// Returns the canonical string form.
    pub fn as_str(self) -> (r: &'static str)
        ensures
            r@ == self.name_spec(),
    {
        match self {
            InstrumentCloseType::EndOfSession => "END_OF_SESSION",
            InstrumentCloseType::ContractExpired => "CONTRACT_EXPIRED",
        }
    }

    /// Parses a string form, case-insensitively. An unrecognized
    /// string is rejected outright, never coerced to a default value.
    pub fn from_str(s: &str) -> (r: Result<InstrumentCloseType, UnknownValue>)
        ensures
            match r {
                Ok(v) => Self::parse_spec(s@) == Some(v),
                Err(e) => Self::parse_spec(s@) is None && e.value@ == s@,
            },
    {
        if eq_ignore_ascii_case(s, "END_OF_SESSION") {
            Ok(InstrumentCloseType::EndOfSession)
        } else if eq_ignore_ascii_case(s, "CONTRACT_EXPIRED") {
            Ok(InstrumentCloseType::ContractExpired)
        } else {
            Err(UnknownValue::new(s))
        }
    }
}

/// Whether an order provided or took liquidity; the zero value stands
/// for "no liquidity side recorded".
#[derive(Copy, Clone, Debug, Hash, PartialEq, Eq, Structural)]
pub enum LiquiditySide {
    NoLiquiditySide,
    Maker,
    Taker,
}

impl LiquiditySide {
    /// The stable integer value of this LiquiditySide.
    pub open spec fn value_spec(self) -> u8 {
        match self {
            LiquiditySide::NoLiquiditySide => 0,
            LiquiditySide::Maker => 1,
            LiquiditySide::Taker => 2,
        }
    }

    /// The LiquiditySide value with integer value `v`, if there is one.
    pub open spec fn from_value_spec(v: u8) -> Option<LiquiditySide> {
        if v == 0 {
            Some(LiquiditySide::NoLiquiditySide)
        } else if v == 1 {
            Some(LiquiditySide::Maker)
        } else if v == 2 {
            Some(LiquiditySide::Taker)
        } else {
            None
        }
    }

    /// The canonical string form, uppercase with underscores.
    pub open spec fn name_spec(self) -> Seq<char> {
        match self {
            LiquiditySide::NoLiquiditySide => "NO_LIQUIDITY_SIDE"@,
            LiquiditySide::Maker => "MAKER"@,
            LiquiditySide::Taker => "TAKER"@,
        }
    }

    /// Which value the character sequence `s` names, compared
    /// case-insensitively against each accepted string form.
    pub open spec fn parse_spec(s: Seq<char>) -> Option<LiquiditySide> {
        if fold_eq(s, "NO_LIQUIDITY_SIDE"@) {
            Some(LiquiditySide::NoLiquiditySide)
        } else if fold_eq(s, "MAKER"@) {
            Some(LiquiditySide::Maker)
        } else if fold_eq(s, "TAKER"@) {
            Some(LiquiditySide::Taker)
        } else {
            None
        }
    }

    /// Returns the stable integer value.
    pub fn value(self) -> (v: u8)
        ensures
            v == self.value_spec(),
    {
        match self {
            LiquiditySide::NoLiquiditySide => 0,
            LiquiditySide::Maker => 1,
            LiquiditySide::Taker => 2,
        }
    }

    /// Returns the value with integer value `v`, or `None` when `v`
    /// is not the value of any LiquiditySide.
    pub fn from_value(v: u8) -> (r: Option<LiquiditySide>)
        ensures
            r == Self::from_value_spec(v),
    {
        if v == 0 {
            Some(LiquiditySide::NoLiquiditySide)
        } else if v == 1 {
            Some(LiquiditySide::Maker)
        } else if v == 2 {
            Some(LiquiditySide::Taker)
        } else {
            None
        }
    }

    /// Returns the canonical string form.
    pub fn as_str(self) -> (r: &'static str)
        ensures
            r@ == self.name_spec(),
    {
        match self {
            LiquiditySide::NoLiquiditySide => "NO_LIQUIDITY_SIDE",
            LiquiditySide::Maker => "MAKER",
            LiquiditySide::Taker => "TAKER",
        }
    }

    /// Parses a string form, case-insensitively. An unrecognized
    /// string is rejected outright, never coerced to a default value.
    pub fn from_str(s: &str) -> (r: Result<LiquiditySide, UnknownValue>)
        ensures
            match r {
                Ok(v) => Self::parse_spec(s@) == Some(v),
                Err(e) => Self::parse_spec(s@) is None && e.value@ == s@,
            },
    {
        if eq_ignore_ascii_case(s, "NO_LIQUIDITY_SIDE") {
            Ok(LiquiditySide::NoLiquiditySide)
        } else if eq_ignore_ascii_case(s, "MAKER") {
            Ok(LiquiditySide::Maker)
        } else if eq_ignore_ascii_case(s, "TAKER") {
            Ok(LiquiditySide::Taker)
        } else {
            Err(UnknownValue::new(s))
        }
    }
}

/// The session status of a market.
#[derive(Copy, Clone, Debug, Hash, PartialEq, Eq, Structural)]
pub enum MarketStatus {
    Closed,
    PreOpen,
    Open,
    Pause,
    PreClose,
}

impl MarketStatus {
    /// The stable integer value of this MarketStatus.
    pub open spec fn value_spec(self) -> u8 {
        match self {
            MarketStatus::Closed => 1,
            MarketStatus::PreOpen => 2,
            MarketStatus::Open => 3,
            MarketStatus::Pause => 4,
            MarketStatus::PreClose => 5,
        }
    }

    /// The MarketStatus value with integer value `v`, if there is one.
    pub open spec fn from_value_spec(v: u8) -> Option<MarketStatus> {
        if v == 1 {
            Some(MarketStatus::Closed)
        } else if v == 2 {
            Some(MarketStatus::PreOpen)
        } else if v == 3 {
            Some(MarketStatus::Open)
        } else if v == 4 {
            Some(MarketStatus::Pause)
        } else if v == 5 {
            Some(MarketStatus::PreClose)
        } else {
            None
        }
    }

    /// The canonical string form, uppercase with underscores.
    pub open spec fn name_spec(self) -> Seq<char> {
        match self {
            MarketStatus::Closed => "CLOSED"@,
            MarketStatus::PreOpen => "PRE_OPEN"@,
            MarketStatus::Open => "OPEN"@,
            MarketStatus::Pause => "PAUSE"@,
            MarketStatus::PreClose => "PRE_CLOSE"@,
        }
    }

    /// Which value the character sequence `s` names, compared
    /// case-insensitively against each accepted string form.
    pub open spec fn parse_spec(s: Seq<char>) -> Option<MarketStatus> {
        if fold_eq(s, "CLOSED"@) {
            Some(MarketStatus::Closed)
        } else if fold_eq(s, "PRE_OPEN"@) {
            Some(MarketStatus::PreOpen)
        } else if fold_eq(s, "OPEN"@) {
            Some(MarketStatus::Open)
        } else if fold_eq(s, "PAUSE"@) {
            Some(MarketStatus::Pause)
        } else if fold_eq(s, "PRE_CLOSE"@) {
            Some(MarketStatus::PreClose)
        } else {
            None
        }
    }

    /// Returns the stable integer value.
    pub fn value(self) -> (v: u8)
        ensures
            v == self.value_spec(),
    {
        match self {
            MarketStatus::Closed => 1,
            MarketStatus::PreOpen => 2,
            MarketStatus::Open => 3,
            MarketStatus::Pause => 4,
            MarketStatus::PreClose => 5,
        }
    }

    /// Returns the value with integer value `v`, or `None` when `v`
    /// is not the value of any MarketStatus.
    pub fn from_value(v: u8) -> (r: Option<MarketStatus>)
        ensures
            r == Self::from_value_spec(v),
    {
        if v == 1 {
            Some(MarketStatus::Closed)
        } else if v == 2 {
            Some(MarketStatus::PreOpen)
        } else if v == 3 {
            Some(MarketStatus::Open)
        } else if v == 4 {
            Some(MarketStatus::Pause)
        } else if v == 5 {
            Some(MarketStatus::PreClose)
        } else {
            None
        }
    }

    /// Returns the canonical string form.
    pub fn as_str(self) -> (r: &'static str)
        ensures
            r@ == self.name_spec(),
    {
        match self {
            MarketStatus::Closed => "CLOSED",
            MarketStatus::PreOpen => "PRE_OPEN",
            MarketStatus::Open => "OPEN",
            MarketStatus::Pause => "PAUSE",
            MarketStatus::PreClose => "PRE_CLOSE",
        }
    }

    /// Parses a string form, case-insensitively. An unrecognized
    /// string is rejected outright, never coerced to a default value.
    pub fn from_str(s: &str) -> (r: Result<MarketStatus, UnknownValue>)
        ensures
            match r {
                Ok(v) => Self::parse_spec(s@) == Some(v),
                Err(e) => Self::parse_spec(s@) is None && e.value@ == s@,
            },
    {
        if eq_ignore_ascii_case(s, "CLOSED") {
            Ok(MarketStatus::Closed)
        } else if eq_ignore_ascii_case(s, "PRE_OPEN") {
            Ok(MarketStatus::PreOpen)
        } else if eq_ignore_ascii_case(s, "OPEN") {
            Ok(MarketStatus::Open)
        } else if eq_ignore_ascii_case(s, "PAUSE") {
            Ok(MarketStatus::Pause)
        } else if eq_ignore_ascii_case(s, "PRE_CLOSE") {
            Ok(MarketStatus::PreClose)
        } else {
            Err(UnknownValue::new(s))
        }
    }
}

/// The order management mode of a venue or strategy; the zero value
/// stands for "unspecified".
#[derive(Copy, Clone, Debug, Hash, PartialEq, Eq, Structural)]
pub enum OmsType {
    Unspecified,
    Netting,
    Hedging,
}

impl OmsType {
    /// The stable integer value of this OmsType.
    pub open spec fn value_spec(self) -> u8 {
        match self {
            OmsType::Unspecified => 0,
            OmsType::Netting => 1,
            OmsType::Hedging => 2,
        }
    }

    /// The OmsType value with integer value `v`, if there is one.
    pub open spec fn from_value_spec(v: u8) -> Option<OmsType> {
        if v == 0 {
            Some(OmsType::Unspecified)
        } else if v == 1 {
            Some(OmsType::Netting)
        } else if v == 2 {
            Some(OmsType::Hedging)
        } else {
            None
        }
    }

    /// The canonical string form, uppercase with underscores.
    pub open spec fn name_spec(self) -> Seq<char> {
        match self {
            OmsType::Unspecified => "UNSPECIFIED"@,
            OmsType::Netting => "NETTING"@,
            OmsType::Hedging => "HEDGING"@,
        }
    }

    /// Which value the character sequence `s` names, compared
    /// case-insensitively against each accepted string form.
    pub open spec fn parse_spec(s: Seq<char>) -> Option<OmsType> {
        if fold_eq(s, "UNSPECIFIED"@) {
            Some(OmsType::Unspecified)
        } else if fold_eq(s, "NETTING"@) {
            Some(OmsType::Netting)
        } else if fold_eq(s, "HEDGING"@) {
            Some(OmsType::Hedging)
        } else {
            None
        }
    }

    /// Returns the stable integer value.
    pub fn value(self) -> (v: u8)
        ensures
            v == self.value_spec(),
    {
        match self {
            OmsType::Unspecified => 0,
            OmsType::Netting => 1,
            OmsType::Hedging => 2,
        }
    }

    /// Returns the value with integer value `v`, or `None` when `v`
    /// is not the value of any OmsType.
    pub fn from_value(v: u8) -> (r: Option<OmsType>)
        ensures
            r == Self::from_value_spec(v),
    {
        if v == 0 {
            Some(OmsType::Unspecified)
        } else if v == 1 {
            Some(OmsType::Netting)
        } else if v == 2 {
            Some(OmsType::Hedging)
        } else {
            None
        }
    }

    /// Returns the canonical string form.
    pub fn as_str(self) -> (r: &'static str)
        ensures
            r@ == self.name_spec(),
    {
        match self {
            OmsType::Unspecified => "UNSPECIFIED",
            OmsType::Netting => "NETTING",
            OmsType::Hedging => "HEDGING",
        }
    }

    /// Parses a string form, case-insensitively. An unrecognized
    /// string is rejected outright, never coerced to a default value.
    pub fn from_str(s: &str) -> (r: Result<OmsType, UnknownValue>)
        ensures
            match r {
                Ok(v) => Self::parse_spec(s@) == Some(v),
                Err(e) => Self::parse_spec(s@) is None && e.value@ == s@,
            },
    {
        if eq_ignore_ascii_case(s, "UNSPECIFIED") {
            Ok(OmsType::Unspecified)
        } else if eq_ignore_ascii_case(s, "NETTING") {
            Ok(OmsType::Netting)
        } else if eq_ignore_ascii_case(s, "HEDGING") {
            Ok(OmsType::Hedging)
        } else {
            Err(UnknownValue::new(s))
        }
    }
}

/// Whether an option is a call or a put.
#[derive(Copy, Clone, Debug, Hash, PartialEq, Eq, Structural)]
pub enum OptionKind {
    Call,
    Put,
}

impl OptionKind {
    /// The stable integer value of this OptionKind.
    pub open spec fn value_spec(self) -> u8 {
        match self {
            OptionKind::Call => 1,
            OptionKind::Put => 2,
        }
    }

    /// The OptionKind value with integer value `v`, if there is one.
    pub open spec fn from_value_spec(v: u8) -> Option<OptionKind> {
        if v == 1 {
            Some(OptionKind::Call)
        } else if v == 2 {
            Some(OptionKind::Put)
        } else {
            None
        }
    }

    /// The canonical string form, uppercase with underscores.
    pub open spec fn name_spec(self) -> Seq<char> {
        match self {
            OptionKind::Call => "CALL"@,
            OptionKind::Put => "PUT"@,
        }
    }

    /// Which value the character sequence `s` names, compared
    /// case-insensitively against each accepted string form.
    pub open spec fn parse_spec(s: Seq<char>) -> Option<OptionKind> {
        if fold_eq(s, "CALL"@) {
            Some(OptionKind::Call)
        } else if fold_eq(s, "PUT"@) {
            Some(OptionKind::Put)
        } else {
            None
        }
    }

    /// Returns the stable integer value.
    pub fn value(self) -> (v: u8)
        ensures
            v == self.value_spec(),
    {
        match self {
            OptionKind::Call => 1,
            OptionKind::Put => 2,
        }
    }

    /// Returns the value with integer value `v`, or `None` when `v`
    /// is not the value of any OptionKind.
    pub fn from_value(v: u8) -> (r: Option<OptionKind>)
        ensures
            r == Self::from_value_spec(v),
    {
        if v == 1 {
            Some(OptionKind::Call)
        } else if v == 2 {
            Some(OptionKind::Put)
        } else {
            None
        }
    }

    /// Returns the canonical string form.
    pub fn as_str(self) -> (r: &'static str)
        ensures
            r@ == self.name_spec(),
    {
        match self {
            OptionKind::Call => "CALL",
            OptionKind::Put => "PUT",
        }
    }

    /// Parses a string form, case-insensitively. An unrecognized
    /// string is rejected outright, never coerced to a default value.
    pub fn from_str(s: &str) -> (r: Result<OptionKind, UnknownValue>)
        ensures
            match r {
                Ok(v) => Self::parse_spec(s@) == Some(v),
                Err(e) => Self::parse_spec(s@) is None && e.value@ == s@,
            },
    {
        if eq_ignore_ascii_case(s, "CALL") {
            Ok(OptionKind::Call)
        } else if eq_ignore_ascii_case(s, "PUT") {
            Ok(OptionKind::Put)
        } else {
            Err(UnknownValue::new(s))
        }
    }
}

/// The side of an order; the zero value stands for "no side
/// recorded".
#[derive(Copy, Clone, Debug, Hash, PartialEq, Eq, Structural)]
pub enum OrderSide {
    NoOrderSide,
    Buy,
    Sell,
}

impl OrderSide {
    /// The stable integer value of this OrderSide.
    pub open spec fn value_spec(self) -> u8 {
        match self {
            OrderSide::NoOrderSide => 0,
            OrderSide::Buy => 1,
            OrderSide::Sell => 2,
        }
    }

    /// The OrderSide value with integer value `v`, if there is one.
    pub open spec fn from_value_spec(v: u8) -> Option<OrderSide> {
        if v == 0 {
            Some(OrderSide::NoOrderSide)
        } else if v == 1 {
            Some(OrderSide::Buy)
        } else if v == 2 {
            Some(OrderSide::Sell)
        } else {
            None
        }
    }

    /// The canonical string form, uppercase with underscores.
    pub open spec fn name_spec(self) -> Seq<char> {
        match self {
            OrderSide::NoOrderSide => "NO_ORDER_SIDE"@,
            OrderSide::Buy => "BUY"@,
            OrderSide::Sell => "SELL"@,
        }
    }

    /// Which value the character sequence `s` names, compared
    /// case-insensitively against each accepted string form.
    pub open spec fn parse_spec(s: Seq<char>) -> Option<OrderSide> {
        if fold_eq(s, "NO_ORDER_SIDE"@) {
            Some(OrderSide::NoOrderSide)
        } else if fold_eq(s, "BUY"@) {
            Some(OrderSide::Buy)
        } else if fold_eq(s, "SELL"@) {
            Some(OrderSide::Sell)
        } else {
            None
        }
    }

    /// Returns the stable integer value.
    pub fn value(self) -> (v: u8)
        ensures
            v == self.value_spec(),
    {
        match self {
            OrderSide::NoOrderSide => 0,
            OrderSide::Buy => 1,
            OrderSide::Sell => 2,
        }
    }

    /// Returns the value with integer value `v`, or `None` when `v`
    /// is not the value of any OrderSide.
    pub fn from_value(v: u8) -> (r: Option<OrderSide>)
        ensures
            r == Self::from_value_spec(v),
    {
        if v == 0 {
            Some(OrderSide::NoOrderSide)
        } else if v == 1 {
            Some(OrderSide::Buy)
        } else if v == 2 {
            Some(OrderSide::Sell)
        } else {
            None
        }
    }

    /// Returns the canonical string form.
    pub fn as_str(self) -> (r: &'static str)
        ensures
            r@ == self.name_spec(),
    {
        match self {
            OrderSide::NoOrderSide => "NO_ORDER_SIDE",
            OrderSide::Buy => "BUY",
            OrderSide::Sell => "SELL",
        }
    }

    /// Parses a string form, case-insensitively. An unrecognized
    /// string is rejected outright, never coerced to a default value.
    pub fn from_str(s: &str) -> (r: Result<OrderSide, UnknownValue>)
        ensures
            match r {
                Ok(v) => Self::parse_spec(s@) == Some(v),
                Err(e) => Self::parse_spec(s@) is None && e.value@ == s@,
            },
    {
        if eq_ignore_ascii_case(s, "NO_ORDER_SIDE") {
            Ok(OrderSide::NoOrderSide)
        } else if eq_ignore_ascii_case(s, "BUY") {
            Ok(OrderSide::Buy)
        } else if eq_ignore_ascii_case(s, "SELL") {
            Ok(OrderSide::Sell)
        } else {
            Err(UnknownValue::new(s))
        }
    }
}

/// The lifecycle status of an order.
#[derive(Copy, Clone, Debug, Hash, PartialEq, Eq, Structural)]
pub enum OrderStatus {
    Initialized,
    Denied,
    Submitted,
    Accepted,
    Rejected,
    Canceled,
    Expired,
    Triggered,
    PendingUpdate,
    PendingCancel,
    PartiallyFilled,
    Filled,
}

impl OrderStatus {
    /// The stable integer value of this OrderStatus.
    pub open spec fn value_spec(self) -> u8 {
        match self {
            OrderStatus::Initialized => 1,
            OrderStatus::Denied => 2,
            OrderStatus::Submitted => 3,
            OrderStatus::Accepted => 4,
            OrderStatus::Rejected => 5,
            OrderStatus::Canceled => 6,
            OrderStatus::Expired => 7,
            OrderStatus::Triggered => 8,
            OrderStatus::PendingUpdate => 9,
            OrderStatus::PendingCancel => 10,
            OrderStatus::PartiallyFilled => 11,
            OrderStatus::Filled => 12,
        }
    }

    /// The OrderStatus value with integer value `v`, if there is one.
    pub open spec fn from_value_spec(v: u8) -> Option<OrderStatus> {
        if v == 1 {
            Some(OrderStatus::Initialized)
        } else if v == 2 {
            Some(OrderStatus::Denied)
        } else if v == 3 {
            Some(OrderStatus::Submitted)
        } else if v == 4 {
            Some(OrderStatus::Accepted)
        } else if v == 5 {
            Some(OrderStatus::Rejected)
        } else if v == 6 {
            Some(OrderStatus::Canceled)
        } else if v == 7 {
            Some(OrderStatus::Expired)
        } else if v == 8 {
            Some(OrderStatus::Triggered)
        } else if v == 9 {
            Some(OrderStatus::PendingUpdate)
        } else if v == 10 {
            Some(OrderStatus::PendingCancel)
        } else if v == 11 {
            Some(OrderStatus::PartiallyFilled)
        } else if v == 12 {
            Some(OrderStatus::Filled)
        } else {
            None
        }
    }

    /// The canonical string form, uppercase with underscores.
    pub open spec fn name_spec(self) -> Seq<char> {
        match self {
            OrderStatus::Initialized => "INITIALIZED"@,
            OrderStatus::Denied => "DENIED"@,
            OrderStatus::Submitted => "SUBMITTED"@,
            OrderStatus::Accepted => "ACCEPTED"@,
            OrderStatus::Rejected => "REJECTED"@,
            OrderStatus::Canceled => "CANCELED"@,
            OrderStatus::Expired => "EXPIRED"@,
            OrderStatus::Triggered => "TRIGGERED"@,
            OrderStatus::PendingUpdate => "PENDING_UPDATE"@,
            OrderStatus::PendingCancel => "PENDING_CANCEL"@,
            OrderStatus::PartiallyFilled => "PARTIALLY_FILLED"@,
            OrderStatus::Filled => "FILLED"@,
        }
    }

    /// Which value the character sequence `s` names, compared
    /// case-insensitively against each accepted string form.
    pub open spec fn parse_spec(s: Seq<char>) -> Option<OrderStatus> {
        if fold_eq(s, "INITIALIZED"@) {
            Some(OrderStatus::Initialized)
        } else if fold_eq(s, "DENIED"@) {
            Some(OrderStatus::Denied)
        } else if fold_eq(s, "SUBMITTED"@) {
            Some(OrderStatus::Submitted)
        } else if fold_eq(s, "ACCEPTED"@) {
            Some(OrderStatus::Accepted)
        } else if fold_eq(s, "REJECTED"@) {
            Some(OrderStatus::Rejected)
        } else if fold_eq(s, "CANCELED"@) {
            Some(OrderStatus::Canceled)
        } else if fold_eq(s, "EXPIRED"@) {
            Some(OrderStatus::Expired)
        } else if fold_eq(s, "TRIGGERED"@) {
            Some(OrderStatus::Triggered)
        } else if fold_eq(s, "PENDING_UPDATE"@) {
            Some(OrderStatus::PendingUpdate)
        } else if fold_eq(s, "PENDING_CANCEL"@) {
            Some(OrderStatus::PendingCancel)
        } else if fold_eq(s, "PARTIALLY_FILLED"@) {
            Some(OrderStatus::PartiallyFilled)
        } else if fold_eq(s, "FILLED"@) {
            Some(OrderStatus::Filled)
        } else {
            None
        }
    }

    /// Returns the stable integer value.
    pub fn value(self) -> (v: u8)
        ensures
            v == self.value_spec(),
    {
        match self {
            OrderStatus::Initialized => 1,
            OrderStatus::Denied => 2,
            OrderStatus::Submitted => 3,
            OrderStatus::Accepted => 4,
            OrderStatus::Rejected => 5,
            OrderStatus::Canceled => 6,
            OrderStatus::Expired => 7,
            OrderStatus::Triggered => 8,
            OrderStatus::PendingUpdate => 9,
            OrderStatus::PendingCancel => 10,
            OrderStatus::PartiallyFilled => 11,
            OrderStatus::Filled => 12,
        }
    }

    /// Returns the value with integer value `v`, or `None` when `v`
    /// is not the value of any OrderStatus.
    pub fn from_value(v: u8) -> (r: Option<OrderStatus>)
        ensures
            r == Self::from_value_spec(v),
    {
        if v == 1 {
            Some(OrderStatus::Initialized)
        } else if v == 2 {
            Some(OrderStatus::Denied)
        } else if v == 3 {
            Some(OrderStatus::Submitted)
        } else if v == 4 {
            Some(OrderStatus::Accepted)
        } else if v == 5 {
            Some(OrderStatus::Rejected)
        } else if v == 6 {
            Some(OrderStatus::Canceled)
        } else if v == 7 {
            Some(OrderStatus::Expired)
        } else if v == 8 {
            Some(OrderStatus::Triggered)
        } else if v == 9 {
            Some(OrderStatus::PendingUpdate)
        } else if v == 10 {
            Some(OrderStatus::PendingCancel)
        } else if v == 11 {
            Some(OrderStatus::PartiallyFilled)
        } else if v == 12 {
            Some(OrderStatus::Filled)
        } else {
            None
        }
    }

    /// Returns the canonical string form.
    pub fn as_str(self) -> (r: &'static str)
        ensures
            r@ == self.name_spec(),
    {
        match self {
            OrderStatus::Initialized => "INITIALIZED",
            OrderStatus::Denied => "DENIED",
            OrderStatus::Submitted => "SUBMITTED",
            OrderStatus::Accepted => "ACCEPTED",
            OrderStatus::Rejected => "REJECTED",
            OrderStatus::Canceled => "CANCELED",
            OrderStatus::Expired => "EXPIRED",
            OrderStatus::Triggered => "TRIGGERED",
            OrderStatus::PendingUpdate => "PENDING_UPDATE",
            OrderStatus::PendingCancel => "PENDING_CANCEL",
            OrderStatus::PartiallyFilled => "PARTIALLY_FILLED",
            OrderStatus::Filled => "FILLED",
        }
    }

    /// Parses a string form, case-insensitively. An unrecognized
    /// string is rejected outright, never coerced to a default value.
    pub fn from_str(s: &str) -> (r: Result<OrderStatus, UnknownValue>)
        ensures
            match r {
                Ok(v) => Self::parse_spec(s@) == Some(v),
                Err(e) => Self::parse_spec(s@) is None && e.value@ == s@,
            },
    {
        if eq_ignore_ascii_case(s, "INITIALIZED") {
            Ok(OrderStatus::Initialized)
        } else if eq_ignore_ascii_case(s, "DENIED") {
            Ok(OrderStatus::Denied)
        } else if eq_ignore_ascii_case(s, "SUBMITTED") {
            Ok(OrderStatus::Submitted)
        } else if eq_ignore_ascii_case(s, "ACCEPTED") {
            Ok(OrderStatus::Accepted)
        } else if eq_ignore_ascii_case(s, "REJECTED") {
            Ok(OrderStatus::Rejected)
        } else if eq_ignore_ascii_case(s, "CANCELED") {
            Ok(OrderStatus::Canceled)
        } else if eq_ignore_ascii_case(s, "EXPIRED") {
            Ok(OrderStatus::Expired)
        } else if eq_ignore_ascii_case(s, "TRIGGERED") {
            Ok(OrderStatus::Triggered)
        } else if eq_ignore_ascii_case(s, "PENDING_UPDATE") {
            Ok(OrderStatus::PendingUpdate)
        } else if eq_ignore_ascii_case(s, "PENDING_CANCEL") {
            Ok(OrderStatus::PendingCancel)
        } else if eq_ignore_ascii_case(s, "PARTIALLY_FILLED") {
            Ok(OrderStatus::PartiallyFilled)
        } else if eq_ignore_ascii_case(s, "FILLED") {
            Ok(OrderStatus::Filled)
        } else {
            Err(UnknownValue::new(s))
        }
    }
}

/// The execution type of an order.
#[derive(Copy, Clone, Debug, Hash, PartialEq, Eq, Structural)]
pub enum OrderType {
    Market,
    Limit,
    StopMarket,
    StopLimit,
    MarketToLimit,
    MarketIfTouched,
    LimitIfTouched,
    TrailingStopMarket,
    TrailingStopLimit,
}

impl OrderType {
    /// The stable integer value of this OrderType.
    pub open spec fn value_spec(self) -> u8 {
        match self {
            OrderType::Market => 1,
            OrderType::Limit => 2,
            OrderType::StopMarket => 3,
            OrderType::StopLimit => 4,
            OrderType::MarketToLimit => 5,
            OrderType::MarketIfTouched => 6,
            OrderType::LimitIfTouched => 7,
            OrderType::TrailingStopMarket => 8,
            OrderType::TrailingStopLimit => 9,
        }
    }

    /// The OrderType value with integer value `v`, if there is one.
    pub open spec fn from_value_spec(v: u8) -> Option<OrderType> {
        if v == 1 {
            Some(OrderType::Market)
        } else if v == 2 {
            Some(OrderType::Limit)
        } else if v == 3 {
            Some(OrderType::StopMarket)
        } else if v == 4 {
            Some(OrderType::StopLimit)
        } else if v == 5 {
            Some(OrderType::MarketToLimit)
        } else if v == 6 {
            Some(OrderType::MarketIfTouched)
        } else if v == 7 {
            Some(OrderType::LimitIfTouched)
        } else if v == 8 {
            Some(OrderType::TrailingStopMarket)
        } else if v == 9 {
            Some(OrderType::TrailingStopLimit)
        } else {
            None
        }
    }

    /// The canonical string form, uppercase with underscores.
    pub open spec fn name_spec(self) -> Seq<char> {
        match self {
            OrderType::Market => "MARKET"@,
            OrderType::Limit => "LIMIT"@,
            OrderType::StopMarket => "STOP_MARKET"@,
            OrderType::StopLimit => "STOP_LIMIT"@,
            OrderType::MarketToLimit => "MARKET_TO_LIMIT"@,
            OrderType::MarketIfTouched => "MARKET_IF_TOUCHED"@,
            OrderType::LimitIfTouched => "LIMIT_IF_TOUCHED"@,
            OrderType::TrailingStopMarket => "TRAILING_STOP_MARKET"@,
            OrderType::TrailingStopLimit => "TRAILING_STOP_LIMIT"@,
        }
    }

    /// Which value the character sequence `s` names, compared
    /// case-insensitively against each accepted string form.
    pub open spec fn parse_spec(s: Seq<char>) -> Option<OrderType> {
        if fold_eq(s, "MARKET"@) {
            Some(OrderType::Market)
        } else if fold_eq(s, "LIMIT"@) {
            Some(OrderType::Limit)
        } else if fold_eq(s, "STOP_MARKET"@) {
            Some(OrderType::StopMarket)
        } else if fold_eq(s, "STOP_LIMIT"@) {
            Some(OrderType::StopLimit)
        } else if fold_eq(s, "MARKET_TO_LIMIT"@) {
            Some(OrderType::MarketToLimit)
        } else if fold_eq(s, "MARKET_IF_TOUCHED"@) {
            Some(OrderType::MarketIfTouched)
        } else if fold_eq(s, "LIMIT_IF_TOUCHED"@) {
            Some(OrderType::LimitIfTouched)
        } else if fold_eq(s, "TRAILING_STOP_MARKET"@) {
            Some(OrderType::TrailingStopMarket)
        } else if fold_eq(s, "TRAILING_STOP_LIMIT"@) {
            Some(OrderType::TrailingStopLimit)
        } else {
            None
        }
    }

    /// Returns the stable integer value.
    pub fn value(self) -> (v: u8)
        ensures
            v == self.value_spec(),
    {
        match self {
            OrderType::Market => 1,
            OrderType::Limit => 2,
            OrderType::StopMarket => 3,
            OrderType::StopLimit => 4,
            OrderType::MarketToLimit => 5,
            OrderType::MarketIfTouched => 6,
            OrderType::LimitIfTouched => 7,
            OrderType::TrailingStopMarket => 8,
            OrderType::TrailingStopLimit => 9,
        }
    }

    /// Returns the value with integer value `v`, or `None` when `v`
    /// is not the value of any OrderType.
    pub fn from_value(v: u8) -> (r: Option<OrderType>)
        ensures
            r == Self::from_value_spec(v),
    {
        if v == 1 {
            Some(OrderType::Market)
        } else if v == 2 {
            Some(OrderType::Limit)
        } else if v == 3 {
            Some(OrderType::StopMarket)
        } else if v == 4 {
            Some(OrderType::StopLimit)
        } else if v == 5 {
            Some(OrderType::MarketToLimit)
        } else if v == 6 {
            Some(OrderType::MarketIfTouched)
        } else if v == 7 {
            Some(OrderType::LimitIfTouched)
        } else if v == 8 {
            Some(OrderType::TrailingStopMarket)
        } else if v == 9 {
            Some(OrderType::TrailingStopLimit)
        } else {
            None
        }
    }

    /// Returns the canonical string form.
    pub fn as_str(self) -> (r: &'static str)
        ensures
            r@ == self.name_spec(),
    {
        match self {
            OrderType::Market => "MARKET",
            OrderType::Limit => "LIMIT",
            OrderType::StopMarket => "STOP_MARKET",
            OrderType::StopLimit => "STOP_LIMIT",
            OrderType::MarketToLimit => "MARKET_TO_LIMIT",
            OrderType::MarketIfTouched => "MARKET_IF_TOUCHED",
            OrderType::LimitIfTouched => "LIMIT_IF_TOUCHED",
            OrderType::TrailingStopMarket => "TRAILING_STOP_MARKET",
            OrderType::TrailingStopLimit => "TRAILING_STOP_LIMIT",
        }
    }

    /// Parses a string form, case-insensitively. An unrecognized
    /// string is rejected outright, never coerced to a default value.
    pub fn from_str(s: &str) -> (r: Result<OrderType, UnknownValue>)
        ensures
            match r {
                Ok(v) => Self::parse_spec(s@) == Some(v),
                Err(e) => Self::parse_spec(s@) is None && e.value@ == s@,
            },
    {
        if eq_ignore_ascii_case(s, "MARKET") {
            Ok(OrderType::Market)
        } else if eq_ignore_ascii_case(s, "LIMIT") {
            Ok(OrderType::Limit)
        } else if eq_ignore_ascii_case(s, "STOP_MARKET") {
            Ok(OrderType::StopMarket)
        } else if eq_ignore_ascii_case(s, "STOP_LIMIT") {
            Ok(OrderType::StopLimit)
        } else if eq_ignore_ascii_case(s, "MARKET_TO_LIMIT") {
            Ok(OrderType::MarketToLimit)
        } else if eq_ignore_ascii_case(s, "MARKET_IF_TOUCHED") {
            Ok(OrderType::MarketIfTouched)
        } else if eq_ignore_ascii_case(s, "LIMIT_IF_TOUCHED") {
            Ok(OrderType::LimitIfTouched)
        } else if eq_ignore_ascii_case(s, "TRAILING_STOP_MARKET") {
            Ok(OrderType::TrailingStopMarket)
        } else if eq_ignore_ascii_case(s, "TRAILING_STOP_LIMIT") {
            Ok(OrderType::TrailingStopLimit)
        } else {
            Err(UnknownValue::new(s))
        }
    }
}

/// The side of a position; the zero value stands for "no side
/// recorded".
#[derive(Copy, Clone, Debug, Hash, PartialEq, Eq, Structural)]
pub enum PositionSide {
    NoPositionSide,
    Flat,
    Long,
    Short,
}

impl PositionSide {
    /// The stable integer value of this PositionSide.
    pub open spec fn value_spec(self) -> u8 {
        match self {
            PositionSide::NoPositionSide => 0,
            PositionSide::Flat => 1,
            PositionSide::Long => 2,
            PositionSide::Short => 3,
        }
    }

    /// The PositionSide value with integer value `v`, if there is one.
    pub open spec fn from_value_spec(v: u8) -> Option<PositionSide> {
        if v == 0 {
            Some(PositionSide::NoPositionSide)
        } else if v == 1 {
            Some(PositionSide::Flat)
        } else if v == 2 {
            Some(PositionSide::Long)
        } else if v == 3 {
            Some(PositionSide::Short)
        } else {
            None
        }
    }

    /// The canonical string form, uppercase with underscores.
    pub open spec fn name_spec(self) -> Seq<char> {
        match self {
            PositionSide::NoPositionSide => "NO_POSITION_SIDE"@,
            PositionSide::Flat => "FLAT"@,
            PositionSide::Long => "LONG"@,
            PositionSide::Short => "SHORT"@,
        }
    }

    /// Which value the character sequence `s` names, compared
    /// case-insensitively against each accepted string form.
    pub open spec fn parse_spec(s: Seq<char>) -> Option<PositionSide> {
        if fold_eq(s, "NO_POSITION_SIDE"@) {
            Some(PositionSide::NoPositionSide)
        } else if fold_eq(s, "FLAT"@) {
            Some(PositionSide::Flat)
        } else if fold_eq(s, "LONG"@) {
            Some(PositionSide::Long)
        } else if fold_eq(s, "SHORT"@) {
            Some(PositionSide::Short)
        } else {
            None
        }
    }

    /// Returns the stable integer value.
    pub fn value(self) -> (v: u8)
        ensures
            v == self.value_spec(),
    {
        match self {
            PositionSide::NoPositionSide => 0,
            PositionSide::Flat => 1,
            PositionSide::Long => 2,
            PositionSide::Short => 3,
        }
    }

    /// Returns the value with integer value `v`, or `None` when `v`
    /// is not the value of any PositionSide.
    pub fn from_value(v: u8) -> (r: Option<PositionSide>)
        ensures
            r == Self::from_value_spec(v),
    {
        if v == 0 {
            Some(PositionSide::NoPositionSide)
        } else if v == 1 {
            Some(PositionSide::Flat)
        } else if v == 2 {
            Some(PositionSide::Long)
        } else if v == 3 {
            Some(PositionSide::Short)
        } else {
            None
        }
    }

    /// Returns the canonical string form.
    pub fn as_str(self) -> (r: &'static str)
        ensures
            r@ == self.name_spec(),
    {
        match self {
            PositionSide::NoPositionSide => "NO_POSITION_SIDE",
            PositionSide::Flat => "FLAT",
            PositionSide::Long => "LONG",
            PositionSide::Short => "SHORT",
        }
    }

    /// Parses a string form, case-insensitively. An unrecognized
    /// string is rejected outright, never coerced to a default value.
    pub fn from_str(s: &str) -> (r: Result<PositionSide, UnknownValue>)
        ensures
            match r {
                Ok(v) => Self::parse_spec(s@) == Some(v),
                Err(e) => Self::parse_spec(s@) is None && e.value@ == s@,
            },
    {
        if eq_ignore_ascii_case(s, "NO_POSITION_SIDE") {
            Ok(PositionSide::NoPositionSide)
        } else if eq_ignore_ascii_case(s, "FLAT") {
            Ok(PositionSide::Flat)
        } else if eq_ignore_ascii_case(s, "LONG") {
            Ok(PositionSide::Long)
        } else if eq_ignore_ascii_case(s, "SHORT") {
            Ok(PositionSide::Short)
        } else {
            Err(UnknownValue::new(s))
        }
    }
}

/// Which price of an instrument a value refers to.
#[derive(Copy, Clone, Debug, Hash, PartialEq, Eq, Structural)]
pub enum PriceType {
    Bid,
    Ask,
    Mid,
    Last,
}

impl PriceType {
    /// The stable integer value of this PriceType.
    pub open spec fn value_spec(self) -> u8 {
        match self {
            PriceType::Bid => 1,
            PriceType::Ask => 2,
            PriceType::Mid => 3,
            PriceType::Last => 4,
        }
    }

    /// The PriceType value with integer value `v`, if there is one.
    pub open spec fn from_value_spec(v: u8) -> Option<PriceType> {
        if v == 1 {
            Some(PriceType::Bid)
        } else if v == 2 {
            Some(PriceType::Ask)
        } else if v == 3 {
            Some(PriceType::Mid)
        } else if v == 4 {
            Some(PriceType::Last)
        } else {
            None
        }
    }

    /// The canonical string form, uppercase with underscores.
    pub open spec fn name_spec(self) -> Seq<char> {
        match self {
            PriceType::Bid => "BID"@,
            PriceType::Ask => "ASK"@,
            PriceType::Mid => "MID"@,
            PriceType::Last => "LAST"@,
        }
    }

    /// Which value the character sequence `s` names, compared
    /// case-insensitively against each accepted string form.
    pub open spec fn parse_spec(s: Seq<char>) -> Option<PriceType> {
        if fold_eq(s, "BID"@) {
            Some(PriceType::Bid)
        } else if fold_eq(s, "ASK"@) {
            Some(PriceType::Ask)
        } else if fold_eq(s, "MID"@) {
            Some(PriceType::Mid)
        } else if fold_eq(s, "LAST"@) {
            Some(PriceType::Last)
        } else {
            None
        }
    }

    /// Returns the stable integer value.
    pub fn value(self) -> (v: u8)
        ensures
            v == self.value_spec(),
    {
        match self {
            PriceType::Bid => 1,
            PriceType::Ask => 2,
            PriceType::Mid => 3,
            PriceType::Last => 4,
        }
    }

    /// Returns the value with integer value `v`, or `None` when `v`
    /// is not the value of any PriceType.
    pub fn from_value(v: u8) -> (r: Option<PriceType>)
        ensures
            r == Self::from_value_spec(v),
    {
        if v == 1 {
            Some(PriceType::Bid)
        } else if v == 2 {
            Some(PriceType::Ask)
        } else if v == 3 {
            Some(PriceType::Mid)
        } else if v == 4 {
            Some(PriceType::Last)
        } else {
            None
        }
    }

    /// Returns the canonical string form.
    pub fn as_str(self) -> (r: &'static str)
        ensures
            r@ == self.name_spec(),
    {
        match self {
            PriceType::Bid => "BID",
            PriceType::Ask => "ASK",
            PriceType::Mid => "MID",
            PriceType::Last => "LAST",
        }
    }

    /// Parses a string form, case-insensitively. An unrecognized
    /// string is rejected outright, never coerced to a default value.
    pub fn from_str(s: &str) -> (r: Result<PriceType, UnknownValue>)
        ensures
            match r {
                Ok(v) => Self::parse_spec(s@) == Some(v),
                Err(e) => Self::parse_spec(s@) is None && e.value@ == s@,
            },
    {
        if eq_ignore_ascii_case(s, "BID") {
            Ok(PriceType::Bid)
        } else if eq_ignore_ascii_case(s, "ASK") {
            Ok(PriceType::Ask)
        } else if eq_ignore_ascii_case(s, "MID") {
            Ok(PriceType::Mid)
        } else if eq_ignore_ascii_case(s, "LAST") {
            Ok(PriceType::Last)
        } else {
            Err(UnknownValue::new(s))
        }
    }
}

/// How long an order remains in force.
#[derive(Copy, Clone, Debug, Hash, PartialEq, Eq, Structural)]
pub enum TimeInForce {
    Gtc,
    Ioc,
    Fok,
    Gtd,
    Day,
    AtTheOpen,
    AtTheClose,
}

impl TimeInForce {
    /// The stable integer value of this TimeInForce.
    pub open spec fn value_spec(self) -> u8 {
        match self {
            TimeInForce::Gtc => 1,
            TimeInForce::Ioc => 2,
            TimeInForce::Fok => 3,
            TimeInForce::Gtd => 4,
            TimeInForce::Day => 5,
            TimeInForce::AtTheOpen => 6,
            TimeInForce::AtTheClose => 7,
        }
    }

    /// The TimeInForce value with integer value `v`, if there is one.
    pub open spec fn from_value_spec(v: u8) -> Option<TimeInForce> {
        if v == 1 {
            Some(TimeInForce::Gtc)
        } else if v == 2 {
            Some(TimeInForce::Ioc)
        } else if v == 3 {
            Some(TimeInForce::Fok)
        } else if v == 4 {
            Some(TimeInForce::Gtd)
        } else if v == 5 {
            Some(TimeInForce::Day)
        } else if v == 6 {
            Some(TimeInForce::AtTheOpen)
        } else if v == 7 {
            Some(TimeInForce::AtTheClose)
        } else {
            None
        }
    }

    /// The canonical string form, uppercase with underscores.
    pub open spec fn name_spec(self) -> Seq<char> {
        match self {
            TimeInForce::Gtc => "GTC"@,
            TimeInForce::Ioc => "IOC"@,
            TimeInForce::Fok => "FOK"@,
            TimeInForce::Gtd => "GTD"@,
            TimeInForce::Day => "DAY"@,
            TimeInForce::AtTheOpen => "AT_THE_OPEN"@,
            TimeInForce::AtTheClose => "AT_THE_CLOSE"@,
        }
    }

    /// Which value the character sequence `s` names, compared
    /// case-insensitively against each accepted string form.
    pub open spec fn parse_spec(s: Seq<char>) -> Option<TimeInForce> {
        if fold_eq(s, "GTC"@) {
            Some(TimeInForce::Gtc)
        } else if fold_eq(s, "IOC"@) {
            Some(TimeInForce::Ioc)
        } else if fold_eq(s, "FOK"@) {
            Some(TimeInForce::Fok)
        } else if fold_eq(s, "GTD"@) {
            Some(TimeInForce::Gtd)
        } else if fold_eq(s, "DAY"@) {
            Some(TimeInForce::Day)
        } else if fold_eq(s, "AT_THE_OPEN"@) {
            Some(TimeInForce::AtTheOpen)
        } else if fold_eq(s, "AT_THE_CLOSE"@) {
            Some(TimeInForce::AtTheClose)
        } else {
            None
        }
    }

    /// Returns the stable integer value.
    pub fn value(self) -> (v: u8)
        ensures
            v == self.value_spec(),
    {
        match self {
            TimeInForce::Gtc => 1,
            TimeInForce::Ioc => 2,
            TimeInForce::Fok => 3,
            TimeInForce::Gtd => 4,
            TimeInForce::Day => 5,
            TimeInForce::AtTheOpen => 6,
            TimeInForce::AtTheClose => 7,
        }
    }

    /// Returns the value with integer value `v`, or `None` when `v`
    /// is not the value of any TimeInForce.
    pub fn from_value(v: u8) -> (r: Option<TimeInForce>)
        ensures
            r == Self::from_value_spec(v),
    {
        if v == 1 {
            Some(TimeInForce::Gtc)
        } else if v == 2 {
            Some(TimeInForce::Ioc)
        } else if v == 3 {
            Some(TimeInForce::Fok)
        } else if v == 4 {
            Some(TimeInForce::Gtd)
        } else if v == 5 {
            Some(TimeInForce::Day)
        } else if v == 6 {
            Some(TimeInForce::AtTheOpen)
        } else if v == 7 {
            Some(TimeInForce::AtTheClose)
        } else {
            None
        }
    }

    /// Returns the canonical string form.
    pub fn as_str(self) -> (r: &'static str)
        ensures
            r@ == self.name_spec(),
    {
        match self {
            TimeInForce::Gtc => "GTC",
            TimeInForce::Ioc => "IOC",
            TimeInForce::Fok => "FOK",
            TimeInForce::Gtd => "GTD",
            TimeInForce::Day => "DAY",
            TimeInForce::AtTheOpen => "AT_THE_OPEN",
            TimeInForce::AtTheClose => "AT_THE_CLOSE",
        }
    }

    /// Parses a string form, case-insensitively. An unrecognized
    /// string is rejected outright, never coerced to a default value.
    pub fn from_str(s: &str) -> (r: Result<TimeInForce, UnknownValue>)
        ensures
            match r {
                Ok(v) => Self::parse_spec(s@) == Some(v),
                Err(e) => Self::parse_spec(s@) is None && e.value@ == s@,
            },
    {
        if eq_ignore_ascii_case(s, "GTC") {
            Ok(TimeInForce::Gtc)
        } else if eq_ignore_ascii_case(s, "IOC") {
            Ok(TimeInForce::Ioc)
        } else if eq_ignore_ascii_case(s, "FOK") {
            Ok(TimeInForce::Fok)
        } else if eq_ignore_ascii_case(s, "GTD") {
            Ok(TimeInForce::Gtd)
        } else if eq_ignore_ascii_case(s, "DAY") {
            Ok(TimeInForce::Day)
        } else if eq_ignore_ascii_case(s, "AT_THE_OPEN") {
            Ok(TimeInForce::AtTheOpen)
        } else if eq_ignore_ascii_case(s, "AT_THE_CLOSE") {
            Ok(TimeInForce::AtTheClose)
        } else {
            Err(UnknownValue::new(s))
        }
    }
}

/// The trading state of the platform or a strategy.
#[derive(Copy, Clone, Debug, Hash, PartialEq, Eq, Structural)]
pub enum TradingState {
    Active,
    Halted,
    Reducing,
}

impl TradingState {
    /// The stable integer value of this TradingState.
    pub open spec fn value_spec(self) -> u8 {
        match self {
            TradingState::Active => 1,
            TradingState::Halted => 2,
            TradingState::Reducing => 3,
        }
    }

    /// The TradingState value with integer value `v`, if there is one.
    pub open spec fn from_value_spec(v: u8) -> Option<TradingState> {
        if v == 1 {
            Some(TradingState::Active)
        } else if v == 2 {
            Some(TradingState::Halted)
        } else if v == 3 {
            Some(TradingState::Reducing)
        } else {
            None
        }
    }

    /// The canonical string form, uppercase with underscores.
    pub open spec fn name_spec(self) -> Seq<char> {
        match self {
            TradingState::Active => "ACTIVE"@,
            TradingState::Halted => "HALTED"@,
            TradingState::Reducing => "REDUCING"@,
        }
    }

    /// Which value the character sequence `s` names, compared
    /// case-insensitively against each accepted string form.
    pub open spec fn parse_spec(s: Seq<char>) -> Option<TradingState> {
        if fold_eq(s, "ACTIVE"@) {
            Some(TradingState::Active)
        } else if fold_eq(s, "HALTED"@) {
            Some(TradingState::Halted)
        } else if fold_eq(s, "REDUCING"@) {
            Some(TradingState::Reducing)
        } else {
            None
        }
    }

    /// Returns the stable integer value.
    pub fn value(self) -> (v: u8)
        ensures
            v == self.value_spec(),
    {
        match self {
            TradingState::Active => 1,
            TradingState::Halted => 2,
            TradingState::Reducing => 3,
        }
    }

    /// Returns the value with integer value `v`, or `None` when `v`
    /// is not the value of any TradingState.
    pub fn from_value(v: u8) -> (r: Option<TradingState>)
        ensures
            r == Self::from_value_spec(v),
    {
        if v == 1 {
            Some(TradingState::Active)
        } else if v == 2 {
            Some(TradingState::Halted)
        } else if v == 3 {
            Some(TradingState::Reducing)
        } else {
            None
        }
    }

    /// Returns the canonical string form.
    pub fn as_str(self) -> (r: &'static str)
        ensures
            r@ == self.name_spec(),
    {
        match self {
            TradingState::Active => "ACTIVE",
            TradingState::Halted => "HALTED",
            TradingState::Reducing => "REDUCING",
        }
    }

    /// Parses a string form, case-insensitively. An unrecognized
    /// string is rejected outright, never coerced to a default value.
    pub fn from_str(s: &str) -> (r: Result<TradingState, UnknownValue>)
        ensures
            match r {
                Ok(v) => Self::parse_spec(s@) == Some(v),
                Err(e) => Self::parse_spec(s@) is None && e.value@ == s@,
            },
    {
        if eq_ignore_ascii_case(s, "ACTIVE") {
            Ok(TradingState::Active)
        } else if eq_ignore_ascii_case(s, "HALTED") {
            Ok(TradingState::Halted)
        } else if eq_ignore_ascii_case(s, "REDUCING") {
            Ok(TradingState::Reducing)
        } else {
            Err(UnknownValue::new(s))
        }
    }
}

/// How a trailing stop's offset is expressed; the zero value stands
/// for "no trailing offset".
#[derive(Copy, Clone, Debug, Hash, PartialEq, Eq, Structural)]
pub enum TrailingOffsetType {
    NoTrailingOffset,
    Price,
    BasisPoints,
    Ticks,
    PriceTier,
}

impl TrailingOffsetType {
    /// The stable integer value of this TrailingOffsetType.
    pub open spec fn value_spec(self) -> u8 {
        match self {
            TrailingOffsetType::NoTrailingOffset => 0,
            TrailingOffsetType::Price => 1,
            TrailingOffsetType::BasisPoints => 2,
            TrailingOffsetType::Ticks => 3,
            TrailingOffsetType::PriceTier => 4,
        }
    }

    /// The TrailingOffsetType value with integer value `v`, if there is one.
    pub open spec fn from_value_spec(v: u8) -> Option<TrailingOffsetType> {
        if v == 0 {
            Some(TrailingOffsetType::NoTrailingOffset)
        } else if v == 1 {
            Some(TrailingOffsetType::Price)
        } else if v == 2 {
            Some(TrailingOffsetType::BasisPoints)
        } else if v == 3 {
            Some(TrailingOffsetType::Ticks)
        } else if v == 4 {
            Some(TrailingOffsetType::PriceTier)
        } else {
            None
        }
    }

    /// The canonical string form, uppercase with underscores.
    pub open spec fn name_spec(self) -> Seq<char> {
        match self {
            TrailingOffsetType::NoTrailingOffset => "NO_TRAILING_OFFSET"@,
            TrailingOffsetType::Price => "PRICE"@,
            TrailingOffsetType::BasisPoints => "BASIS_POINTS"@,
            TrailingOffsetType::Ticks => "TICKS"@,
            TrailingOffsetType::PriceTier => "PRICE_TIER"@,
        }
    }

    /// Which value the character sequence `s` names, compared
    /// case-insensitively against each accepted string form.
    pub open spec fn parse_spec(s: Seq<char>) -> Option<TrailingOffsetType> {
        if fold_eq(s, "NO_TRAILING_OFFSET"@) {
            Some(TrailingOffsetType::NoTrailingOffset)
        } else if fold_eq(s, "PRICE"@) {
            Some(TrailingOffsetType::Price)
        } else if fold_eq(s, "BASIS_POINTS"@) {
            Some(TrailingOffsetType::BasisPoints)
        } else if fold_eq(s, "TICKS"@) {
            Some(TrailingOffsetType::Ticks)
        } else if fold_eq(s, "PRICE_TIER"@) {
            Some(TrailingOffsetType::PriceTier)
        } else {
            None
        }
    }

    /// Returns the stable integer value.
    pub fn value(self) -> (v: u8)
        ensures
            v == self.value_spec(),
    {
        match self {
            TrailingOffsetType::NoTrailingOffset => 0,
            TrailingOffsetType::Price => 1,
            TrailingOffsetType::BasisPoints => 2,
            TrailingOffsetType::Ticks => 3,
            TrailingOffsetType::PriceTier => 4,
        }
    }

    /// Returns the value with integer value `v`, or `None` when `v`
    /// is not the value of any TrailingOffsetType.
    pub fn from_value(v: u8) -> (r: Option<TrailingOffsetType>)
        ensures
            r == Self::from_value_spec(v),
    {
        if v == 0 {
            Some(TrailingOffsetType::NoTrailingOffset)
        } else if v == 1 {
            Some(TrailingOffsetType::Price)
        } else if v == 2 {
            Some(TrailingOffsetType::BasisPoints)
        } else if v == 3 {
            Some(TrailingOffsetType::Ticks)
        } else if v == 4 {
            Some(TrailingOffsetType::PriceTier)
        } else {
            None
        }
    }

    /// Returns the canonical string form.
    pub fn as_str(self) -> (r: &'static str)
        ensures
            r@ == self.name_spec(),
    {
        match self {
            TrailingOffsetType::NoTrailingOffset => "NO_TRAILING_OFFSET",
            TrailingOffsetType::Price => "PRICE",
            TrailingOffsetType::BasisPoints => "BASIS_POINTS",
            TrailingOffsetType::Ticks => "TICKS",
            TrailingOffsetType::PriceTier => "PRICE_TIER",
        }
    }

    /// Parses a string form, case-insensitively. An unrecognized
    /// string is rejected outright, never coerced to a default value.
    pub fn from_str(s: &str) -> (r: Result<TrailingOffsetType, UnknownValue>)
        ensures
            match r {
                Ok(v) => Self::parse_spec(s@) == Some(v),
                Err(e) => Self::parse_spec(s@) is None && e.value@ == s@,
            },
    {
        if eq_ignore_ascii_case(s, "NO_TRAILING_OFFSET") {
            Ok(TrailingOffsetType::NoTrailingOffset)
        } else if eq_ignore_ascii_case(s, "PRICE") {
            Ok(TrailingOffsetType::Price)
        } else if eq_ignore_ascii_case(s, "BASIS_POINTS") {
            Ok(TrailingOffsetType::BasisPoints)
        } else if eq_ignore_ascii_case(s, "TICKS") {
            Ok(TrailingOffsetType::Ticks)
        } else if eq_ignore_ascii_case(s, "PRICE_TIER") {
            Ok(TrailingOffsetType::PriceTier)
        } else {
            Err(UnknownValue::new(s))
        }
    }
}

/// The price source that triggers a conditional order; the zero value
/// stands for "no trigger".
#[derive(Copy, Clone, Debug, Hash, PartialEq, Eq, Structural)]
pub enum TriggerType {
    NoTrigger,
    Default,
    BidAsk,
    LastTrade,
    DoubleLast,
    DoubleBidAsk,
    LastOrBidAsk,
    MidPoint,
    MarkPrice,
    IndexPrice,
}

impl TriggerType {
    /// The stable integer value of this TriggerType.
    pub open spec fn value_spec(self) -> u8 {
        match self {
            TriggerType::NoTrigger => 0,
            TriggerType::Default => 1,
            TriggerType::BidAsk => 2,
            TriggerType::LastTrade => 3,
            TriggerType::DoubleLast => 4,
            TriggerType::DoubleBidAsk => 5,
            TriggerType::LastOrBidAsk => 6,
            TriggerType::MidPoint => 7,
            TriggerType::MarkPrice => 8,
            TriggerType::IndexPrice => 9,
        }
    }

    /// The TriggerType value with integer value `v`, if there is one.
    pub open spec fn from_value_spec(v: u8) -> Option<TriggerType> {
        if v == 0 {
            Some(TriggerType::NoTrigger)
        } else if v == 1 {
            Some(TriggerType::Default)
        } else if v == 2 {
            Some(TriggerType::BidAsk)
        } else if v == 3 {
            Some(TriggerType::LastTrade)
        } else if v == 4 {
            Some(TriggerType::DoubleLast)
        } else if v == 5 {
            Some(TriggerType::DoubleBidAsk)
        } else if v == 6 {
            Some(TriggerType::LastOrBidAsk)
        } else if v == 7 {
            Some(TriggerType::MidPoint)
        } else if v == 8 {
            Some(TriggerType::MarkPrice)
        } else if v == 9 {
            Some(TriggerType::IndexPrice)
        } else {
            None
        }
    }

    /// The canonical string form, uppercase with underscores.
    pub open spec fn name_spec(self) -> Seq<char> {
        match self {
            TriggerType::NoTrigger => "NO_TRIGGER"@,
            TriggerType::Default => "DEFAULT"@,
            TriggerType::BidAsk => "BID_ASK"@,
            TriggerType::LastTrade => "LAST_TRADE"@,
            TriggerType::DoubleLast => "DOUBLE_LAST"@,
            TriggerType::DoubleBidAsk => "DOUBLE_BID_ASK"@,
            TriggerType::LastOrBidAsk => "LAST_OR_BID_ASK"@,
            TriggerType::MidPoint => "MID_POINT"@,
            TriggerType::MarkPrice => "MARK_PRICE"@,
            TriggerType::IndexPrice => "INDEX_PRICE"@,
        }
    }

    /// Which value the character sequence `s` names, compared
    /// case-insensitively against each accepted string form.
    pub open spec fn parse_spec(s: Seq<char>) -> Option<TriggerType> {
        if fold_eq(s, "NO_TRIGGER"@) {
            Some(TriggerType::NoTrigger)
        } else if fold_eq(s, "DEFAULT"@) {
            Some(TriggerType::Default)
        } else if fold_eq(s, "BID_ASK"@) {
            Some(TriggerType::BidAsk)
        } else if fold_eq(s, "LAST_TRADE"@) {
            Some(TriggerType::LastTrade)
        } else if fold_eq(s, "DOUBLE_LAST"@) {
            Some(TriggerType::DoubleLast)
        } else if fold_eq(s, "DOUBLE_BID_ASK"@) {
            Some(TriggerType::DoubleBidAsk)
        } else if fold_eq(s, "LAST_OR_BID_ASK"@) {
            Some(TriggerType::LastOrBidAsk)
        } else if fold_eq(s, "MID_POINT"@) {
            Some(TriggerType::MidPoint)
        } else if fold_eq(s, "MARK_PRICE"@) {
            Some(TriggerType::MarkPrice)
        } else if fold_eq(s, "INDEX_PRICE"@) {
            Some(TriggerType::IndexPrice)
        } else {
            None
        }
    }

    /// Returns the stable integer value.
    pub fn value(self) -> (v: u8)
        ensures
            v == self.value_spec(),
    {
        match self {
            TriggerType::NoTrigger => 0,
            TriggerType::Default => 1,
            TriggerType::BidAsk => 2,
            TriggerType::LastTrade => 3,
            TriggerType::DoubleLast => 4,
            TriggerType::DoubleBidAsk => 5,
            TriggerType::LastOrBidAsk => 6,
            TriggerType::MidPoint => 7,
            TriggerType::MarkPrice => 8,
            TriggerType::IndexPrice => 9,
        }
    }

    /// Returns the value with integer value `v`, or `None` when `v`
    /// is not the value of any TriggerType.
    pub fn from_value(v: u8) -> (r: Option<TriggerType>)
        ensures
            r == Self::from_value_spec(v),
    {
        if v == 0 {
            Some(TriggerType::NoTrigger)
        } else if v == 1 {
            Some(TriggerType::Default)
        } else if v == 2 {
            Some(TriggerType::BidAsk)
        } else if v == 3 {
            Some(TriggerType::LastTrade)
        } else if v == 4 {
            Some(TriggerType::DoubleLast)
        } else if v == 5 {
            Some(TriggerType::DoubleBidAsk)
        } else if v == 6 {
            Some(TriggerType::LastOrBidAsk)
        } else if v == 7 {
            Some(TriggerType::MidPoint)
        } else if v == 8 {
            Some(TriggerType::MarkPrice)
        } else if v == 9 {
            Some(TriggerType::IndexPrice)
        } else {
            None
        }
    }

    /// Returns the canonical string form.
    pub fn as_str(self) -> (r: &'static str)
        ensures
            r@ == self.name_spec(),
    {
        match self {
            TriggerType::NoTrigger => "NO_TRIGGER",
            TriggerType::Default => "DEFAULT",
            TriggerType::BidAsk => "BID_ASK",
            TriggerType::LastTrade => "LAST_TRADE",
            TriggerType::DoubleLast => "DOUBLE_LAST",
            TriggerType::DoubleBidAsk => "DOUBLE_BID_ASK",
            TriggerType::LastOrBidAsk => "LAST_OR_BID_ASK",
            TriggerType::MidPoint => "MID_POINT",
            TriggerType::MarkPrice => "MARK_PRICE",
            TriggerType::IndexPrice => "INDEX_PRICE",
        }
    }

    /// Parses a string form, case-insensitively. An unrecognized
    /// string is rejected outright, never coerced to a default value.
    pub fn from_str(s: &str) -> (r: Result<TriggerType, UnknownValue>)
        ensures
            match r {
                Ok(v) => Self::parse_spec(s@) == Some(v),
                Err(e) => Self::parse_spec(s@) is None && e.value@ == s@,
            },
    {
        if eq_ignore_ascii_case(s, "NO_TRIGGER") {
            Ok(TriggerType::NoTrigger)
        } else if eq_ignore_ascii_case(s, "DEFAULT") {
            Ok(TriggerType::Default)
        } else if eq_ignore_ascii_case(s, "BID_ASK") {
            Ok(TriggerType::BidAsk)
        } else if eq_ignore_ascii_case(s, "LAST_TRADE") {
            Ok(TriggerType::LastTrade)
        } else if eq_ignore_ascii_case(s, "DOUBLE_LAST") {
            Ok(TriggerType::DoubleLast)
        } else if eq_ignore_ascii_case(s, "DOUBLE_BID_ASK") {
            Ok(TriggerType::DoubleBidAsk)
        } else if eq_ignore_ascii_case(s, "LAST_OR_BID_ASK") {
            Ok(TriggerType::LastOrBidAsk)
        } else if eq_ignore_ascii_case(s, "MID_POINT") {
            Ok(TriggerType::MidPoint)
        } else if eq_ignore_ascii_case(s, "MARK_PRICE") {
            Ok(TriggerType::MarkPrice)
        } else if eq_ignore_ascii_case(s, "INDEX_PRICE") {
            Ok(TriggerType::IndexPrice)
        } else {
            Err(UnknownValue::new(s))
        }
    }
}
} // verus!
