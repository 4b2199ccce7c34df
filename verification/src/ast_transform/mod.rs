//! Tools to walk and to rewrite the tree.

pub mod convenience;
pub mod edit;
pub mod rules;
pub mod steps;
pub mod transformer;
pub mod visitor;

pub use crate::ast_transform::convenience::{FilterTransform, Transform};
pub use crate::ast_transform::transformer::{
    CompositeTransformer, ExpandWith, Identity, Then, TransformWith, Transformer,
};
pub use crate::ast_transform::visitor::{VisitWith, Visitor};
