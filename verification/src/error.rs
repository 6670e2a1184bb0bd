//! What can go wrong during a run, and how far each failure reaches.

use vstd::prelude::*;
use crate::product::Product;

verus! {

/// A failure met while forwarding. Every one of them is reported and none is
/// retried.
#[derive(Clone, Copy, Debug, PartialEq, Eq, Structural)]
pub enum ForwardError {
    /// The mail could not be read from standard input.
    InputRead,
    /// A configuration file of the product exists but could not be read. The
    /// file counts as absent.
    FileRead(Product),
    /// The configuration of the product is malformed. Only that product's
    /// path is given up.
    ConfigParse(Product),
    /// The effective identity could not be lowered. Nothing is delivered.
    PrivilegeDrop,
    /// No source names a recipient. Nothing is delivered.
    EmptyRecipient,
    /// The delivery could not be started or did not succeed: that of one
    /// product, or that of the one plan made of all of them.
    Delivery(Option<Product>),
    /// The driver answered a question that had not been asked.
    OutOfTurn,
}

impl ForwardError {
    /// A fatal failure ends the run before any further delivery is
    /// attempted. Every other failure stays within its product's path.
    pub open spec fn fatal(self) -> bool {
        self is InputRead || self is PrivilegeDrop || self is EmptyRecipient || self is OutOfTurn
    }

    /// The product within whose path the failure stays, if it does.
    pub open spec fn scope(self) -> Option<Product> {
        match self {
            ForwardError::FileRead(product) => Some(product),
            ForwardError::ConfigParse(product) => Some(product),
            ForwardError::Delivery(product) => product,
            _ => None,
        }
    }

    /// Tells whether the failure ends the run.
    pub fn is_fatal(&self) -> (fatal: bool)
        ensures
            fatal == self.fatal(),
    {
        match self {
            ForwardError::InputRead => true,
            ForwardError::PrivilegeDrop => true,
            ForwardError::EmptyRecipient => true,
            ForwardError::OutOfTurn => true,
            _ => false,
        }
    }

    /// The product within whose path the failure stays: `None` for a fatal
    /// failure and for the delivery of a plan made of all products.
    pub fn product(&self) -> (product: Option<Product>)
        ensures
            product == self.scope(),
    {
        match self {
            ForwardError::FileRead(product) => Some(*product),
            ForwardError::ConfigParse(product) => Some(*product),
            ForwardError::Delivery(product) => *product,
            _ => None,
        }
    }
}

/// The status with which the process ends, whatever happened: failures are
/// reported in the log only.
pub const EXIT_STATUS: i32 = 0;

} // verus!
