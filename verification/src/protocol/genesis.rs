pub mod v1;
pub mod v1alpha1;
