use vstd::prelude::*;
use crate::length::Length;
use crate::ohlcv::{follows, Bar, Timestamp};
use crate::price_source::PriceSource;

verus! {

/// Configuration for a technical indicator.
///
/// Every indicator has a corresponding config type that holds its
/// parameters (length, price source, etc). Configs are value types: cheap
/// to clone, compare, and hash.
pub trait IndicatorConfig: Sized + PartialEq + Eq + core::hash::Hash + core::fmt::Debug {
    /// Builder type for constructing this config.
    type Builder: IndicatorConfigBuilder<Self>;

    /// Returns a new builder with default values.
    fn builder() -> Self::Builder;

    /// Window length (number of bars).
    fn length(&self) -> usize;

    /// Price source to extract from each bar.
    fn source(&self) -> &PriceSource;
}

/// Builder for an [`IndicatorConfig`].
pub trait IndicatorConfigBuilder<Config> {
    /// Whether a length has been set, which `build` needs.
    spec fn has_length(&self) -> bool;

    /// Sets the indicator window length.
    fn length(self, length: Length) -> (builder: Self)
        ensures
            builder.has_length(),
    ;

    /// Sets the price source.
    fn source(self, source: PriceSource) -> (builder: Self)
        ensures
            builder.has_length() == self.has_length(),
    ;

    /// Builds the config.
    fn build(self) -> Config
        requires
            self.has_length(),
    ;
}

/// A streaming technical indicator.
///
/// Indicators maintain internal state and update incrementally on each
/// call to `compute`. Output is `None` until enough data has been received
/// for convergence.
pub trait Indicator: Sized + Clone + core::fmt::Debug {
    /// Configuration type for this indicator.
    type Config: IndicatorConfig;

    /// Computed output type: a price for simple indicators, a struct for
    /// composite ones (e.g. Bollinger Bands).
    type Output;

    /// The representation invariant of the indicator.
    spec fn valid(&self) -> bool;

    /// The marker of the bar that the indicator saw last.
    spec fn marker(&self) -> Option<Timestamp>;

    /// The value that the indicator exposes in its present state.
    spec fn exposed(&self) -> Option<Self::Output>;

    /// Creates a new indicator from the given config. It has seen no bar
    /// and exposes nothing.
    fn new(config: Self::Config) -> (indicator: Self)
        ensures
            indicator.valid(),
            indicator.marker() is None,
            indicator.exposed() is None,
    ;

    /// Feeds a bar and returns the updated indicator value, or `None` if
    /// not yet converged. The bar's marker must not be less than the last
    /// one seen.
    fn compute(&mut self, bar: &Bar) -> (output: Option<Self::Output>)
        requires
            old(self).valid(),
            bar.in_range(),
            follows(old(self).marker(), bar.open_time),
        ensures
            final(self).valid(),
            final(self).marker() == Some(bar.open_time),
            output == final(self).exposed(),
    ;

    /// Returns the last computed indicator value without advancing state,
    /// or `None` if not yet converged.
    fn value(&self) -> (output: Option<Self::Output>)
        requires
            self.valid(),
        ensures
            output == self.exposed(),
    ;
}

} // verus!
