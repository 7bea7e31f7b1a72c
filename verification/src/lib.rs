//! Núcleo do Mutirão: as regras do orquestrador de agentes, provadas.

pub mod agente;
pub mod arquivos;
pub mod barramento;
pub mod cli;
pub mod db;
pub mod ensaios;
pub mod erro;
pub mod ferramentas;
pub mod git;
pub mod json;
pub mod mcp;
pub mod modelo;
pub mod orquestrador;
pub mod papeis;
pub mod partituras;
pub mod processo;
pub mod tabela;
pub mod texto;
pub mod time;
