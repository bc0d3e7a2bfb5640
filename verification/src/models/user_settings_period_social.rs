//! The settings of one social (OAuth) authentication strategy.

use vstd::prelude::*;

verus! {

#[derive(Debug, PartialEq)]
pub struct UserSettingsPeriodSocial {
    pub enabled: bool,
    pub required: bool,
    pub authenticatable: bool,
    pub block_email_subaddresses: Option<bool>,
    pub strategy: String,
    pub not_selectable: Option<bool>,
    pub deprecated: Option<bool>,
}

impl UserSettingsPeriodSocial {
    pub fn new(enabled: bool, required: bool, authenticatable: bool, strategy: String) -> (r:
        UserSettingsPeriodSocial)
        ensures
            r.enabled == enabled,
            r.required == required,
            r.authenticatable == authenticatable,
            r.strategy == strategy,
            r.block_email_subaddresses is None,
            r.not_selectable is None,
            r.deprecated is None,
    {
        UserSettingsPeriodSocial {
            enabled,
            required,
            authenticatable,
            block_email_subaddresses: None,
            strategy,
            not_selectable: None,
            deprecated: None,
        }
    }
}

impl Clone for UserSettingsPeriodSocial {
    fn clone(&self) -> (r: Self)
        ensures
            r == *self,
    {
        UserSettingsPeriodSocial {
            enabled: self.enabled,
            required: self.required,
            authenticatable: self.authenticatable,
            block_email_subaddresses: self.block_email_subaddresses,
            strategy: self.strategy.clone(),
            not_selectable: self.not_selectable,
            deprecated: self.deprecated,
        }
    }
}

} // verus!
