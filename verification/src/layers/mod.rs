pub mod conv2d;
