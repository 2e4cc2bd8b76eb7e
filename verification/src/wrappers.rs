pub mod command;
pub mod fbs_dumper;
pub mod flatc;
pub mod il2cpp_dumper;
