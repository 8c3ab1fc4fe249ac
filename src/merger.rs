use vstd::prelude::*;

verus! {

/// Merging an instance of `T` into an instance of `Self`.
///
/// `merged` states what the merge produces, and every implementation of
/// `merge_from` returns exactly that value; an implementation that verifies
/// states it in place of the unspecified default.
pub trait MergeFrom<T>: Sized {
    /// The result of merging `other` into `self`.
    closed spec fn merged(self, other: T) -> Self {
        arbitrary()
    }

    /// Merges an instance of `T` into an instance of `Self`.
    fn merge_from(self, other: T) -> (r: Self)
        ensures
            r == self.merged(other),
    ;
}

/// Merging an instance of `Self` into an instance of `T`.
pub trait MergeInto<T>: Sized {
    /// The result of merging `self` into `other`.
    closed spec fn merged_into(self, other: T) -> T {
        arbitrary()
    }

    /// Merges an instance of `Self` into an instance of `T`.
    fn merge_into(self, other: T) -> (r: T)
        ensures
            r == self.merged_into(other),
    ;
}

/// Every `MergeFrom` gives the opposite direction for free.
impl<Config, PartialConfig> MergeInto<Config> for PartialConfig where Config: MergeFrom<PartialConfig> {
    open spec fn merged_into(self, other: Config) -> Config {
        other.merged(self)
    }

    fn merge_into(self, other: Config) -> (r: Config) {
        other.merge_from(self)
    }
}

/// Merging an instance of `T` into an instance of `Self`, where the merge may fail.
pub trait TryMergeFrom<T>: Sized {
    /// What a failed merge reports.
    type Error;

    /// The outcome of merging `other` into `self`.
    closed spec fn try_merged(self, other: T) -> Result<Self, Self::Error> {
        arbitrary()
    }

    /// Tries to merge an instance of `T` into an instance of `Self`.
    fn try_merge_from(self, other: T) -> (r: Result<Self, Self::Error>)
        ensures
            r == self.try_merged(other),
    ;
}

/// Merging an instance of `Self` into an instance of `T`, where the merge may fail.
pub trait TryMergeInto<T>: Sized {
    /// What a failed merge reports.
    type Error;

    /// The outcome of merging `self` into `other`.
    closed spec fn try_merged_into(self, other: T) -> Result<T, Self::Error> {
        arbitrary()
    }

    /// Tries to merge an instance of `Self` into an instance of `T`.
    fn try_merge_into(self, other: T) -> (r: Result<T, Self::Error>)
        ensures
            r == self.try_merged_into(other),
    ;
}

/// Every `TryMergeFrom` gives the opposite direction for free.
impl<Config, PartialConfig> TryMergeInto<Config> for PartialConfig where
    Config: TryMergeFrom<PartialConfig>,
 {
    type Error = Config::Error;

    open spec fn try_merged_into(self, other: Config) -> Result<Config, Config::Error> {
        other.try_merged(self)
    }

    fn try_merge_into(self, other: Config) -> (r: Result<Config, Config::Error>) {
        other.try_merge_from(self)
    }
}

/// An infallible merge is a fallible one that never fails.
impl<Config, PartialConfig> TryMergeFrom<PartialConfig> for Config where
    Config: MergeFrom<PartialConfig>,
 {
    type Error = ();

    open spec fn try_merged(self, other: PartialConfig) -> Result<Config, ()> {
        Ok(self.merged(other))
    }

    fn try_merge_from(self, other: PartialConfig) -> (r: Result<Config, ()>) {
        Ok(self.merge_from(other))
    }
}

/// An optional value is an overlay for a single field: a value that is set
/// replaces the current one, an unset one leaves it as it is.
impl<T> MergeFrom<Option<T>> for T {
    open spec fn merged(self, other: Option<T>) -> T {
        match other {
            Some(v) => v,
            None => self,
        }
    }

    fn merge_from(self, other: Option<T>) -> (r: T) {
        match other {
            Some(v) => v,
            None => self,
        }
    }
}

/// Merges `partial_config` into `config`.
///
/// Calling this in place of `merge_from` names both types at once, which
/// helps type inference.
pub fn merge<Config, PartialConfig>(config: Config, partial_config: PartialConfig) -> (r: Config) where
    Config: MergeFrom<PartialConfig>,

    ensures
        r == config.merged(partial_config),
{
    config.merge_from(partial_config)
}

/// Tries to merge `partial_config` into `config`.
///
/// Calling this in place of `try_merge_from` names both types at once, which
/// helps type inference.
pub fn try_merge<Config, PartialConfig>(config: Config, partial_config: PartialConfig) -> (r: Result<
    Config,
    Config::Error,
>) where Config: TryMergeFrom<PartialConfig>,

    ensures
        r == config.try_merged(partial_config),
{
    config.try_merge_from(partial_config)
}

/// Merge precedence for a single field: a value that the overlay sets
/// appears in the result, and where the overlay sets none the target's value
/// is kept.
pub proof fn lemma_overlay_precedence<T>(target: T, overlay: Option<T>)
    ensures
        overlay is Some ==> <T as MergeFrom<Option<T>>>::merged(target, overlay) == overlay->Some_0,
        overlay is None ==> <T as MergeFrom<Option<T>>>::merged(target, overlay) == target,
{
}

/// Merging from either side gives the same value: `overlay.merge_into(target)`
/// is `target.merge_from(overlay)`, and the fallible forms of both succeed
/// with that value.
pub proof fn lemma_merge_directions_agree<Config, PartialConfig>(target: Config, overlay: PartialConfig) where
    Config: MergeFrom<PartialConfig>,

    ensures
        overlay.merged_into(target) == target.merged(overlay),
        overlay.try_merged_into(target) == Ok::<Config, ()>(target.merged(overlay)),
        target.try_merged(overlay) == Ok::<Config, ()>(target.merged(overlay)),
{
}

} // verus!
