use vstd::prelude::*;
use crate::config::ExchangeableConfig;
use crate::param::ConfigParam;

verus! {

/// Holder of the configuration currently in force. Every change replaces the
/// whole configuration; readers get a copy.
pub struct ConfigStore {
    pub current: ExchangeableConfig,
}

impl View for ConfigStore {
    type V = Seq<(Seq<char>, ConfigParam)>;

    open spec fn view(&self) -> Seq<(Seq<char>, ConfigParam)> {
        self.current@
    }
}

/// The configuration to adopt after decoding: what was decoded, or the empty
/// configuration where decoding failed.
pub fn decode_or_default(decoded: Option<ExchangeableConfig>) -> (r: ExchangeableConfig)
    ensures
        match decoded {
            Some(c) => r == c,
            None => r@ == Seq::<(Seq<char>, ConfigParam)>::empty() && r.wf(),
        },
{
    match decoded {
        Some(c) => c,
        None => ExchangeableConfig::default(),
    }
}

impl ConfigStore {
    pub open spec fn wf(&self) -> bool {
        self.current.wf()
    }

    /// A store holding the empty configuration.
    pub fn new() -> (r: ConfigStore)
        ensures
            r@ == Seq::<(Seq<char>, ConfigParam)>::empty(),
            r.wf(),
    {
        ConfigStore { current: ExchangeableConfig::default() }
    }

    /// A copy of the configuration in force.
    pub fn read_snapshot(&self) -> (r: ExchangeableConfig)
        requires
            self.wf(),
        ensures
            r@ == self@,
            r.wf(),
    {
        self.current.snapshot()
    }

    /// Puts `new_config` in force in place of the whole current configuration.
    pub fn replace(&mut self, new_config: ExchangeableConfig)
        ensures
            final(self).current == new_config,
            new_config.wf() ==> final(self).wf(),
    {
        self.current = new_config;
    }

    /// Puts in force what was decoded, or the empty configuration where decoding failed.
    pub fn replace_from_decoded(&mut self, decoded: Option<ExchangeableConfig>)
        ensures
            match decoded {
                Some(c) => final(self).current == c,
                None => final(self)@ == Seq::<(Seq<char>, ConfigParam)>::empty(),
            },
            (decoded matches Some(c) ==> c.wf()) ==> final(self).wf(),
    {
        let c = decode_or_default(decoded);
        self.replace(c);
    }
}

} // verus!
