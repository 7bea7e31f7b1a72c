//! Erro do núcleo. A borda converte isto em algo que a interface mostra:
//! um código estável para decidir o que fazer, e uma frase para ler.

use crate::texto::{anexar, dono, string_de};
use vstd::prelude::*;

verus! {

broadcast use vstd::string::group_string_axioms;

/// Erro do núcleo.
///
/// `Banco`, `Json` e `Io` carregam o texto do erro de quem falhou por baixo
/// (o banco, o leitor de JSON, o sistema de arquivos); a borda nunca o mostra
/// cru para o usuário.
#[derive(Debug, Clone, PartialEq)]
pub enum Erro {
    Banco(String),
    Json(String),
    Io(String),
    /// Não achou o que foi pedido. Carrega o tipo e o id para a mensagem
    /// chegar útil na interface.
    NaoEncontrado { tipo: String, id: String },
    /// Regra de domínio violada. Texto vai direto para o usuário.
    Invalido(String),
    /// Caminho fora do escopo do workspace. Nunca vaza o caminho tentado.
    ForaDoEscopo,
}

pub type Resultado<T> = Result<T, Erro>;

/// O código estável de cada tipo de erro.
pub open spec fn codigo_de(e: Erro) -> Seq<char> {
    match e {
        Erro::Banco(_) => "banco"@,
        Erro::Json(_) => "json"@,
        Erro::Io(_) => "io"@,
        Erro::NaoEncontrado { .. } => "nao_encontrado"@,
        Erro::Invalido(_) => "invalido"@,
        Erro::ForaDoEscopo => "fora_do_escopo"@,
    }
}

/// A frase de cada erro.
pub open spec fn mensagem_de(e: Erro) -> Seq<char> {
    match e {
        Erro::Banco(m) => "banco: "@ + m@,
        Erro::Json(m) => "json: "@ + m@,
        Erro::Io(m) => "io: "@ + m@,
        Erro::NaoEncontrado { tipo, id } => tipo@ + " não encontrado: "@ + id@,
        Erro::Invalido(m) => m@,
        Erro::ForaDoEscopo => "caminho fora do escopo do workspace"@,
    }
}

impl Erro {
    pub fn nao_encontrado(tipo: &str, id: &str) -> (r: Erro)
        ensures
            r matches Erro::NaoEncontrado { tipo: t, id: i } && t@ == tipo@ && i@ == id@,
    {
        Erro::NaoEncontrado { tipo: dono(tipo), id: dono(id) }
    }

    pub fn invalido(msg: &str) -> (r: Erro)
        ensures
            r matches Erro::Invalido(m) && m@ == msg@,
    {
        Erro::Invalido(dono(msg))
    }

    /// Código estável para o front decidir o que fazer.
    pub fn codigo(&self) -> (r: &'static str)
        ensures
            r@ == codigo_de(*self),
    {
        match self {
            Erro::Banco(_) => "banco",
            Erro::Json(_) => "json",
            Erro::Io(_) => "io",
            Erro::NaoEncontrado { .. } => "nao_encontrado",
            Erro::Invalido(_) => "invalido",
            Erro::ForaDoEscopo => "fora_do_escopo",
        }
    }

    /// A frase que o erro mostra.
    pub fn mensagem(&self) -> (r: String)
        ensures
            r@ == mensagem_de(*self),
    {
        let mut v: Vec<char> = Vec::new();
        match self {
            Erro::Banco(m) => {
                anexar(&mut v, "banco: ");
                anexar(&mut v, m.as_str());
            },
            Erro::Json(m) => {
                anexar(&mut v, "json: ");
                anexar(&mut v, m.as_str());
            },
            Erro::Io(m) => {
                anexar(&mut v, "io: ");
                anexar(&mut v, m.as_str());
            },
            Erro::NaoEncontrado { tipo, id } => {
                anexar(&mut v, tipo.as_str());
                anexar(&mut v, " não encontrado: ");
                anexar(&mut v, id.as_str());
            },
            Erro::Invalido(m) => {
                anexar(&mut v, m.as_str());
            },
            Erro::ForaDoEscopo => {
                anexar(&mut v, "caminho fora do escopo do workspace");
            },
        }
        string_de(&v)
    }
}

/// Um erro `Invalido` com a frase dada em caracteres.
pub fn invalido_de(v: &Vec<char>) -> (r: Erro)
    ensures
        r matches Erro::Invalido(m) && m@ == v@,
{
    Erro::Invalido(string_de(v))
}

/// O que a interface mostra quando o erro veio de baixo (banco, JSON, disco):
/// o usuário não tem o que fazer com o texto cru, e ele vaza o esquema.
pub const MENSAGEM_INTERNA: &'static str = "Algo falhou aqui dentro. Se repetir, feche e abra o app.";

/// O erro veio de baixo do núcleo: banco, leitor de JSON ou sistema de arquivos.
pub open spec fn e_interno(e: Erro) -> bool {
    e is Banco || e is Json || e is Io
}

/// O erro como atravessa para a interface: sempre um código para decidir e
/// uma frase para mostrar, nunca uma string solta.
#[derive(Debug, Clone, PartialEq)]
pub struct ErroIpc {
    pub codigo: String,
    pub mensagem: String,
}

impl ErroIpc {
    /// O código do erro e, para o que veio de baixo, uma frase genérica no
    /// lugar do texto cru.
    pub fn do_erro(e: &Erro) -> (r: ErroIpc)
        ensures
            r.codigo@ == codigo_de(*e),
            e_interno(*e) ==> r.mensagem@ == MENSAGEM_INTERNA@,
            !e_interno(*e) ==> r.mensagem@ == mensagem_de(*e),
    {
        let mensagem = match e {
            Erro::Banco(_) | Erro::Json(_) | Erro::Io(_) => dono(MENSAGEM_INTERNA),
            _ => e.mensagem(),
        };
        ErroIpc { codigo: dono(e.codigo()), mensagem }
    }
}

} // verus!
