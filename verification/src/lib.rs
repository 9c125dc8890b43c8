pub mod bignum;
pub mod rational;
pub mod tuple;
pub mod matrix;
pub mod matrix_transformations;
pub mod sphere;
pub mod intersection;
pub mod ray;
