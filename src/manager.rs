//! The active policy snapshot, the selected detection method and the
//! policy file's location; a reload replaces the snapshot only when the new
//! text parses.

use vstd::prelude::*;

use crate::combo::ParseError;
use crate::context::DetectMethod;
use crate::policy::{first_error, texts, KeyConfig};

verus! {

/// What a policy file held, as read: its two lists of combination texts.
pub struct StoredPolicy {
    pub blacklist: Vec<String>,
    pub whitelist: Vec<String>,
}

/// The error of the first text of the two lists that does not parse,
/// blacklist first.
pub open spec fn lists_error(blacklist: Seq<String>, whitelist: Seq<String>) -> Option<ParseError> {
    match first_error(texts(blacklist)) {
        Some(e) => Some(e),
        None => first_error(texts(whitelist)),
    }
}

/// The policy to start with: what was stored if it was read and parses,
/// else the default one, which is then to be written back (`true`). The
/// third part is the parse error that made a stored policy unusable.
pub fn resolve_loaded(stored: Option<StoredPolicy>) -> (r: (KeyConfig, bool, Option<ParseError>))
    ensures
        match stored {
            Some(p) => r.2 == lists_error(p.blacklist@, p.whitelist@) && if r.2 is None {
                !r.1 && r.0.wf() && crate::policy::reprs(r.0.blacklist@) == texts(p.blacklist@)
                    && crate::policy::reprs(r.0.whitelist@) == texts(p.whitelist@)
            } else {
                r.1 && r.0.is_default()
            },
            None => r.1 && r.0.is_default() && r.2 is None,
        },
{
    match stored {
        Some(p) => match KeyConfig::from_lists(&p.blacklist, &p.whitelist) {
            Ok(c) => (c, false, None),
            Err(e) => (KeyConfig::default(), true, Some(e)),
        },
        None => (KeyConfig::default(), true, None),
    }
}

/// Owns the policy snapshot that the hook consults.
#[derive(Debug)]
pub struct ConfigManager {
    config: KeyConfig,
    detect_method: DetectMethod,
    config_path: String,
}

impl ConfigManager {
    pub closed spec fn policy(&self) -> KeyConfig {
        self.config
    }

    pub closed spec fn method(&self) -> DetectMethod {
        self.detect_method
    }

    pub closed spec fn path(&self) -> Seq<char> {
        self.config_path@
    }

    pub fn new(config: KeyConfig, detect_method: DetectMethod, config_path: String) -> (r: Self)
        ensures
            r.policy() == config,
            r.method() == detect_method,
            r.path() == config_path@,
    {
        ConfigManager { config, detect_method, config_path }
    }

    /// The decision of the current snapshot.
    pub fn should_block(&self, key: u16, shift: bool, ctrl: bool, alt: bool, win: bool) -> (r: bool)
        ensures
            r == self.policy().blocks(key, shift, ctrl, alt, win),
    {
        self.config.should_block(key, shift, ctrl, alt, win)
    }

    pub fn detect_method(&self) -> (r: DetectMethod)
        ensures
            r == self.method(),
    {
        self.detect_method
    }

    pub fn get_config_path(&self) -> (r: &str)
        ensures
            r@ == self.path(),
    {
        self.config_path.as_str()
    }

    pub fn config(&self) -> (r: &KeyConfig)
        ensures
            *r == self.policy(),
    {
        &self.config
    }

    /// Takes a freshly read policy file: when both lists parse, the new
    /// policy replaces the snapshot whole; otherwise the snapshot stays and
    /// the parse error is returned.
    pub fn reload(&mut self, stored: &StoredPolicy) -> (r: Result<(), ParseError>)
        ensures
            r is Ok <==> first_error(texts(stored.blacklist@)) is None && first_error(
                texts(stored.whitelist@),
            ) is None,
            r is Ok ==> final(self).policy().wf() && crate::policy::reprs(
                final(self).policy().blacklist@,
            ) == texts(stored.blacklist@) && crate::policy::reprs(final(self).policy().whitelist@)
                == texts(stored.whitelist@),
            r is Err ==> final(self).policy() == old(self).policy(),
            final(self).method() == old(self).method(),
            final(self).path() == old(self).path(),
    {
        match KeyConfig::from_lists(&stored.blacklist, &stored.whitelist) {
            Ok(c) => {
                self.config = c;
                Ok(())
            },
            Err(e) => Err(e),
        }
    }
}

} // verus!
