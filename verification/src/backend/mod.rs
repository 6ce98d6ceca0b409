pub mod conn_service;
