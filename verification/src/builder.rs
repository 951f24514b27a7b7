//! Construction of a [`Generator`] from its configuration.

use crate::generator::{Config, Generator, GeneratorView, Nanos};
use crate::slot_generator::{ResolverParams, ValId};
use std::collections::HashSet;
use vstd::prelude::*;

verus! {

/// The settings that a generator cannot be built without, in the order in
/// which [`GeneratorBuilder::build`] looks for them.
#[derive(Debug, Clone, Copy, PartialEq, Eq, Structural)]
pub enum ConfigField {
    GenesisTime,
    SlotDuration,
    Validators,
    ResolverParams,
}

/// Why a generator could not be built.
#[derive(Debug, Clone, Copy, PartialEq, Eq, Structural)]
pub enum ConfigError {
    /// The setting was never given.
    MissingField(ConfigField),
}

/// Collects the settings of a [`Generator`]. Every setting is required.
pub struct GeneratorBuilder {
    genesis_time: Option<Nanos>,
    slot_duration: Option<Nanos>,
    validators: Option<HashSet<ValId>>,
    resolver_params: Option<ResolverParams>,
}

/// The mathematical content of a [`GeneratorBuilder`]: each setting, where it
/// was given.
pub struct GeneratorBuilderView {
    pub genesis_time: Option<Nanos>,
    pub slot_duration: Option<Nanos>,
    pub validators: Option<Set<ValId>>,
    pub resolver_params: Option<ResolverParams>,
}

impl GeneratorBuilderView {
    /// No setting given.
    pub open spec fn empty() -> GeneratorBuilderView {
        GeneratorBuilderView {
            genesis_time: None,
            slot_duration: None,
            validators: None,
            resolver_params: None,
        }
    }

    /// The first setting that was not given, if there is one.
    pub open spec fn first_missing(self) -> Option<ConfigField> {
        if self.genesis_time is None {
            Some(ConfigField::GenesisTime)
        } else if self.slot_duration is None {
            Some(ConfigField::SlotDuration)
        } else if self.validators is None {
            Some(ConfigField::Validators)
        } else if self.resolver_params is None {
            Some(ConfigField::ResolverParams)
        } else {
            None
        }
    }

    /// The generator that these settings describe: nothing queued yet.
    pub open spec fn generator(self) -> GeneratorView
        recommends
            self.first_missing() is None,
    {
        GeneratorView {
            config: Config {
                genesis_time: self.genesis_time->0,
                slot_duration: self.slot_duration->0,
                resolver_params: self.resolver_params->0,
            },
            validators: self.validators->0,
            queued_messages: Seq::empty(),
        }
    }
}

impl View for GeneratorBuilder {
    type V = GeneratorBuilderView;

    closed spec fn view(&self) -> GeneratorBuilderView {
        GeneratorBuilderView {
            genesis_time: self.genesis_time,
            slot_duration: self.slot_duration,
            validators: match self.validators {
                Some(validators) => Some(validators@),
                None => None,
            },
            resolver_params: self.resolver_params,
        }
    }
}

impl Default for GeneratorBuilder {
    fn default() -> (builder: GeneratorBuilder)
        ensures
            builder@ == GeneratorBuilderView::empty(),
    {
        GeneratorBuilder {
            genesis_time: None,
            slot_duration: None,
            validators: None,
            resolver_params: None,
        }
    }
}

impl GeneratorBuilder {
    /// Sets when the first slot began, counted from the Unix epoch.
    pub fn genesis_time(self, genesis_time: Nanos) -> (builder: GeneratorBuilder)
        ensures
            builder@ == (GeneratorBuilderView { genesis_time: Some(genesis_time), ..self@ }),
    {
        GeneratorBuilder { genesis_time: Some(genesis_time), ..self }
    }

    /// Sets how long a slot lasts.
    pub fn slot_duration(self, slot_duration: Nanos) -> (builder: GeneratorBuilder)
        ensures
            builder@ == (GeneratorBuilderView { slot_duration: Some(slot_duration), ..self@ }),
    {
        GeneratorBuilder { slot_duration: Some(slot_duration), ..self }
    }

    /// Sets the validators that the node manages.
    pub fn validators(self, validators: HashSet<ValId>) -> (builder: GeneratorBuilder)
        ensures
            builder@ == (GeneratorBuilderView { validators: Some(validators@), ..self@ }),
    {
        GeneratorBuilder { validators: Some(validators), ..self }
    }

    /// Sets what the duty resolver is set up with.
    pub fn resolver_params(self, resolver_params: ResolverParams) -> (builder: GeneratorBuilder)
        ensures
            builder@ == (GeneratorBuilderView {
                resolver_params: Some(resolver_params),
                ..self@
            }),
    {
        GeneratorBuilder { resolver_params: Some(resolver_params), ..self }
    }

    /// Builds the generator. It succeeds exactly when every setting was
    /// given; otherwise the error names the first one that is missing.
    pub fn build(self) -> (result: Result<Generator, ConfigError>)
        ensures
            match self@.first_missing() {
                Some(field) => result == Err::<Generator, ConfigError>(
                    ConfigError::MissingField(field),
                ),
                None => result is Ok && result->Ok_0@ == self@.generator(),
            },
    {
        let genesis_time = match self.genesis_time {
            Some(genesis_time) => genesis_time,
            None => {
                return Err(ConfigError::MissingField(ConfigField::GenesisTime));
            },
        };
        let slot_duration = match self.slot_duration {
            Some(slot_duration) => slot_duration,
            None => {
                return Err(ConfigError::MissingField(ConfigField::SlotDuration));
            },
        };
        let validators = match self.validators {
            Some(validators) => validators,
            None => {
                return Err(ConfigError::MissingField(ConfigField::Validators));
            },
        };
        let resolver_params = match self.resolver_params {
            Some(resolver_params) => resolver_params,
            None => {
                return Err(ConfigError::MissingField(ConfigField::ResolverParams));
            },
        };
        Ok(Generator::new(Config { genesis_time, slot_duration, resolver_params }, validators))
    }
}

} // verus!
