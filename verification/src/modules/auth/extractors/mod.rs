pub mod current_user;
