pub mod files;
