//! Sample values that a histogram can sort into buckets: values of an ordered
//! domain, each standing at an integer position, so that the distance between
//! two of them can be measured exactly.
use vstd::prelude::*;

verus! {

/// A value with an exact integer position, two values no more than `u64::MAX` apart.
pub trait Position: Copy {
    /// Where the value stands.
    spec fn pos(&self) -> int;

    /// Whether `self` stands strictly before `other`.
    fn precedes(&self, other: &Self) -> (r: bool)
        ensures
            r == (self.pos() < other.pos()),
    ;

    /// How far `self` stands past `start`.
    fn distance_from(&self, start: &Self) -> (r: u64)
        requires
            start.pos() <= self.pos(),
        ensures
            r as int == self.pos() - start.pos(),
    ;
}

impl Position for u8 {
    open spec fn pos(&self) -> int {
        *self as int
    }

    fn precedes(&self, other: &Self) -> (r: bool) {
        *self < *other
    }

    fn distance_from(&self, start: &Self) -> (r: u64) {
        (*self - *start) as u64
    }
}

impl Position for u16 {
    open spec fn pos(&self) -> int {
        *self as int
    }

    fn precedes(&self, other: &Self) -> (r: bool) {
        *self < *other
    }

    fn distance_from(&self, start: &Self) -> (r: u64) {
        (*self - *start) as u64
    }
}

impl Position for u32 {
    open spec fn pos(&self) -> int {
        *self as int
    }

    fn precedes(&self, other: &Self) -> (r: bool) {
        *self < *other
    }

    fn distance_from(&self, start: &Self) -> (r: u64) {
        (*self - *start) as u64
    }
}

impl Position for u64 {
    open spec fn pos(&self) -> int {
        *self as int
    }

    fn precedes(&self, other: &Self) -> (r: bool) {
        *self < *other
    }

    fn distance_from(&self, start: &Self) -> (r: u64) {
        (*self - *start) as u64
    }
}

impl Position for i8 {
    open spec fn pos(&self) -> int {
        *self as int
    }

    fn precedes(&self, other: &Self) -> (r: bool) {
        *self < *other
    }

    fn distance_from(&self, start: &Self) -> (r: u64) {
        (*self as i16 - *start as i16) as u64
    }
}

impl Position for i16 {
    open spec fn pos(&self) -> int {
        *self as int
    }

    fn precedes(&self, other: &Self) -> (r: bool) {
        *self < *other
    }

    fn distance_from(&self, start: &Self) -> (r: u64) {
        (*self as i32 - *start as i32) as u64
    }
}

impl Position for i32 {
    open spec fn pos(&self) -> int {
        *self as int
    }

    fn precedes(&self, other: &Self) -> (r: bool) {
        *self < *other
    }

    fn distance_from(&self, start: &Self) -> (r: u64) {
        (*self as i64 - *start as i64) as u64
    }
}

impl Position for i64 {
    open spec fn pos(&self) -> int {
        *self as int
    }

    fn precedes(&self, other: &Self) -> (r: bool) {
        *self < *other
    }

    fn distance_from(&self, start: &Self) -> (r: u64) {
        (*self as i128 - *start as i128) as u64
    }
}

} // verus!
