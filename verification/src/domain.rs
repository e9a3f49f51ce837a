pub mod customer;
pub mod inventory;
pub mod service_visit;
pub mod service_visit_part;
pub mod invoice;
pub mod motorcycle;
