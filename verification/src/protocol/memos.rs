pub mod v1alpha1;
