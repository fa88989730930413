//! The indicator wrapper that caches each bar's output, so that a condition
//! tree can advance an indicator exactly once per bar and read the cached
//! value during evaluation.

use vstd::prelude::*;

use crate::error::{TaError, TaResult};
use crate::indicators::indicator::{
    ind_fresh, ind_out_candle, ind_period, ind_shape, ind_step_rel, ind_wf, Indicator,
};
use crate::strategy::market_data::MarketData;
use crate::types::{val_view, OutputShape, OutputType, ValueModel};

verus! {

/// An indicator together with its cached previous output.
#[derive(Debug, Clone)]
pub struct IndicatorState {
    pub indicator: Indicator,
    pub previous_output: Option<OutputType>,
}

impl IndicatorState {
    /// The cached output's model, if any.
    pub open spec fn cache_view(&self) -> Option<ValueModel> {
        match self.previous_output {
            Some(v) => Some(val_view(v)),
            None => None,
        }
    }

    /// The wrapped indicator is well formed.
    pub open spec fn wf(&self) -> bool {
        ind_wf(self.indicator) && ind_period(self.indicator) <= usize::MAX
    }

    /// Wraps an indicator with an empty cache.
    pub fn new(indicator: Indicator) -> (r: IndicatorState)
        ensures
            r.indicator == indicator,
            r.previous_output is None,
    {
        IndicatorState { indicator, previous_output: None }
    }

    /// The wrapped indicator's warm-up period.
    pub fn period(&self) -> (r: usize)
        requires
            self.wf(),
        ensures
            r == ind_period(self.indicator),
    {
        self.indicator.period()
    }

    /// The wrapped indicator's output arity.
    pub fn output_shape(&self) -> (r: OutputShape)
        ensures
            crate::types::shape_view(r) == crate::types::ShapeModel::S(
                ind_shape(self.indicator) as nat,
            ),
    {
        self.indicator.output_shape()
    }

    /// Advances the wrapped indicator one bar and caches its output.
    pub fn update(&mut self, data: &MarketData) -> (r: TaResult<()>)
        requires
            old(self).wf(),
        ensures
            final(self).wf(),
            r is Ok,
            ind_period(final(self).indicator) == ind_period(old(self).indicator),
            ind_shape(final(self).indicator) == ind_shape(old(self).indicator),
            ind_step_rel(old(self).indicator, final(self).indicator, *data),
            final(self).cache_view() == Some(ind_out_candle(old(self).indicator, *data)),
    {
        match self.indicator.next_candle(data) {
            Ok(output) => {
                self.previous_output = Some(output);
                Ok(())
            },
            Err(e) => Err(e),
        }
    }

    /// The cached output of the last `update`, or `NotInitialized` when no
    /// update has happened yet.
    pub fn prev(&self) -> (r: TaResult<OutputType>)
        ensures
            r is Ok <==> self.previous_output is Some,
            r matches Ok(v) ==> Some(val_view(v)) == self.cache_view(),
            r is Err ==> r->Err_0 is NotInitialized,
    {
        match &self.previous_output {
            Some(v) => Ok(v.clone()),
            None => Err(TaError::NotInitialized("No previous output available".to_owned())),
        }
    }

    /// Returns the indicator to its freshly constructed state and clears
    /// the cache.
    pub fn reset(&mut self)
        requires
            old(self).wf(),
        ensures
            final(self).wf(),
            ind_period(final(self).indicator) == ind_period(old(self).indicator),
            ind_shape(final(self).indicator) == ind_shape(old(self).indicator),
            ind_fresh(final(self).indicator),
            final(self).previous_output is None,
    {
        self.indicator.reset();
        self.previous_output = None;
    }
}

} // verus!
