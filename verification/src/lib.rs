pub mod money;
pub mod types;
pub mod table;
pub mod text;
pub mod cart;
pub mod store;
pub mod clock;
pub mod server;
pub mod sales;
pub mod payments;
pub mod tenders;
pub mod accounts;
pub mod controls;
pub mod fiscal;
pub mod receipts;
pub mod documents;
pub mod laws;
