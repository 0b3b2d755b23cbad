pub mod elastic;
