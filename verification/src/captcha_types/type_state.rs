use vstd::prelude::*;

verus! {

/// Marks a GeeTest description whose captcha id is still to be given.
#[derive(Debug, Clone, Copy, PartialEq, Eq, Default)]
pub struct CaptchaIdMissing;

/// Holds the captcha id of a GeeTest description.
#[derive(Debug, Clone, PartialEq, Eq)]
pub struct CaptchaIdProvided(pub String);

/// Marks a GeeTest description whose challenge is still to be given.
#[derive(Debug, Clone, Copy, PartialEq, Eq, Default)]
pub struct ChallengeMissing;

/// Holds the challenge of a GeeTest description.
#[derive(Debug, Clone, PartialEq, Eq)]
pub struct ChallengeProvided(pub String);

/// Marks a GeeTest description whose `gt` key is still to be given.
#[derive(Debug, Clone, Copy, PartialEq, Eq, Default)]
pub struct GtMissing;

/// Holds the `gt` key of a GeeTest description.
#[derive(Debug, Clone, PartialEq, Eq)]
pub struct GtProvided(pub String);

} // verus!
