//! As regras do banco que não dependem do SQLite: nomes, versões do
//! esquema, o que se lê quando o banco traz lixo.
//!
//! Abrir o arquivo, rodar SQL e ler as linhas é da borda.

use crate::erro::{invalido_de, Erro};
use crate::modelo::{TipoCabo, TipoNo};
use crate::texto::{anexar, anexar_chars, aparado, aparar, chars_de, decimal, em_branco, escrever_decimal};
use vstd::prelude::*;

verus! {

broadcast use vstd::string::group_string_axioms;

/// Quantas migrações o app conhece: a versão do esquema mais nova.
pub const VERSAO_DO_ESQUEMA: i64 = 1;

/// Um inteiro escrito como o `Display` o escreve.
pub open spec fn inteiro_spec(n: int) -> Seq<char> {
    if n < 0 {
        "-"@ + decimal((-n) as nat)
    } else {
        decimal(n as nat)
    }
}

fn escrever_inteiro(n: i64) -> (r: Vec<char>)
    ensures
        r@ == inteiro_spec(n as int),
{
    if n < 0 {
        let m: u64 = (0i128 - (n as i128)) as u64;
        let mut v: Vec<char> = Vec::new();
        anexar(&mut v, "-");
        let d = escrever_decimal(m);
        anexar_chars(&mut v, &d);
        v
    } else {
        escrever_decimal(n as u64)
    }
}

/// A frase de um banco mais novo que o app.
pub open spec fn frase_banco_novo(versao: int, alvo: int) -> Seq<char> {
    "banco na versão "@ + inteiro_spec(versao) + ", app só conhece até "@ + inteiro_spec(alvo)
        + ". Atualize o Mutirão."@
}

/// As migrações a aplicar a um banco na `versao` dada, para chegar ao `alvo`:
/// as de índice `versao` até `alvo - 1`, nenhuma se já está em dia. Um banco
/// mais novo que o app é recusado: o app não sabe ler o que não conhece.
pub fn migracoes_a_aplicar(versao: i64, alvo: i64) -> (r: Result<(i64, i64), Erro>)
    ensures
        versao > alvo ==> (r matches Err(Erro::Invalido(m)) && m@ == frase_banco_novo(
            versao as int,
            alvo as int,
        )),
        versao <= alvo ==> r == Ok::<(i64, i64), Erro>((versao, alvo)),
{
    if versao > alvo {
        let mut v: Vec<char> = Vec::new();
        anexar(&mut v, "banco na versão ");
        let a = escrever_inteiro(versao);
        anexar_chars(&mut v, &a);
        anexar(&mut v, ", app só conhece até ");
        let b = escrever_inteiro(alvo);
        anexar_chars(&mut v, &b);
        anexar(&mut v, ". Atualize o Mutirão.");
        return Err(invalido_de(&v));
    }
    Ok((versao, alvo))
}

/// Um nome obrigatório, aparado; em branco é recusado com a frase dada.
pub fn nome_obrigatorio(nome: &str, frase: &str) -> (r: Result<String, Erro>)
    ensures
        aparado(nome@).len() == 0 ==> (r matches Err(Erro::Invalido(m)) && m@ == frase@),
        aparado(nome@).len() != 0 ==> (r matches Ok(n) && n@ == aparado(nome@)),
{
    if em_branco(nome) {
        return Err(Erro::invalido(frase));
    }
    Ok(aparar(nome))
}

/// O nome de um workspace novo.
pub fn nome_do_workspace(nome: &str) -> (r: Result<String, Erro>)
    ensures
        aparado(nome@).len() == 0 ==> (r matches Err(Erro::Invalido(m)) && m@
            == "o workspace precisa de um nome"@),
        aparado(nome@).len() != 0 ==> (r matches Ok(n) && n@ == aparado(nome@)),
{
    nome_obrigatorio(nome, "o workspace precisa de um nome")
}

/// O nome novo de um nó renomeado.
pub fn nome_renomeado(nome: &str) -> (r: Result<String, Erro>)
    ensures
        aparado(nome@).len() == 0 ==> (r matches Err(Erro::Invalido(m)) && m@
            == "o nó precisa de um nome"@),
        aparado(nome@).len() != 0 ==> (r matches Ok(n) && n@ == aparado(nome@)),
{
    nome_obrigatorio(nome, "o nó precisa de um nome")
}

/// O nome que um nó ganha quando nasce sem nome.
pub open spec fn nome_padrao_spec(tipo: TipoNo) -> Seq<char> {
    match tipo {
        TipoNo::Agente => "Agente"@,
        TipoNo::Nota => "Nota"@,
        TipoNo::Arquivos => "Arquivos"@,
        TipoNo::Portal => "Portal"@,
        TipoNo::Forma => "Forma"@,
    }
}

pub fn nome_padrao(tipo: TipoNo) -> (r: &'static str)
    ensures
        r@ == nome_padrao_spec(tipo),
{
    match tipo {
        TipoNo::Agente => "Agente",
        TipoNo::Nota => "Nota",
        TipoNo::Arquivos => "Arquivos",
        TipoNo::Portal => "Portal",
        TipoNo::Forma => "Forma",
    }
}

/// O nome de um nó novo: o dado, aparado, ou o padrão do tipo quando em
/// branco.
pub fn nome_do_no(nome: &str, tipo: TipoNo) -> (r: String)
    ensures
        aparado(nome@).len() == 0 ==> r@ == nome_padrao_spec(tipo),
        aparado(nome@).len() != 0 ==> r@ == aparado(nome@),
{
    if em_branco(nome) {
        nome_padrao(tipo).to_string()
    } else {
        aparar(nome)
    }
}

/// Um cabo liga dois nós diferentes.
pub fn checar_cabo(de: &str, para: &str) -> (r: Result<(), Erro>)
    ensures
        de@ == para@ ==> (r matches Err(Erro::Invalido(m)) && m@
            == "um nó não se conecta a si mesmo"@),
        de@ != para@ ==> r is Ok,
{
    if crate::texto::iguais(de, para) {
        return Err(Erro::invalido("um nó não se conecta a si mesmo"));
    }
    Ok(())
}

/// A recusa de um cabo que já existe do mesmo jeito.
pub fn cabo_repetido() -> (r: Erro)
    ensures
        r matches Erro::Invalido(m) && m@ == "esses nós já estão ligados desse jeito"@,
{
    Erro::invalido("esses nós já estão ligados desse jeito")
}

/// O `z` de um nó que vem para a frente: um acima do maior do workspace.
pub fn proximo_z(maior: Option<i64>) -> (r: i64)
    requires
        maior != Some(i64::MAX),
    ensures
        r == match maior {
            Some(z) => z + 1,
            None => 1,
        },
{
    match maior {
        Some(z) => z + 1,
        None => 1,
    }
}

/// O tipo de um nó lido do banco. O banco garante o domínio; se chegou lixo,
/// ele foi editado por fora, e cair para `Forma` é melhor que derrubar o app.
pub fn tipo_no_lido(txt: &str) -> (r: TipoNo)
    ensures
        r == match TipoNo::de_rotulo(txt@) {
            Some(t) => t,
            None => TipoNo::Forma,
        },
{
    match TipoNo::do_texto(txt) {
        Some(t) => t,
        None => TipoNo::Forma,
    }
}

/// O tipo de um cabo lido do banco; lixo vira `fala_com`.
pub fn tipo_cabo_lido(txt: &str) -> (r: TipoCabo)
    ensures
        r == match TipoCabo::de_rotulo(txt@) {
            Some(t) => t,
            None => TipoCabo::FalaCom,
        },
{
    match TipoCabo::do_texto(txt) {
        Some(t) => t,
        None => TipoCabo::FalaCom,
    }
}

} // verus!
