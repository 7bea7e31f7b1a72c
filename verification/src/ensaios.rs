//! Rascunhos: duas versões do mesmo trabalho ao mesmo tempo.
//!
//! O usuário vê "Rascunho 2" e "Publicar"; nunca lê branch, commit ou merge,
//! nem nas mensagens de erro. Aqui: o ramo de um rascunho novo, quem pode ser
//! publicado, e a prévia que a tela mostra. Rodar o git e trocar o rascunho em
//! foco (derrubando os agentes antes) é da borda.

use crate::erro::{invalido_de, Erro};
use crate::git::Lado;
use crate::modelo::{
    mudanca_da_letra, novo_id, Ensaio, EstadoEnsaio, LadoDoConflito, MudancaArquivo,
    PreviaPublicacao, TipoMudanca,
};
use crate::texto::{anexar, anexar_chars, chars_de, primeiros, string_de};
use vstd::prelude::*;

verus! {

broadcast use vstd::string::group_string_axioms;

/// O ramo e o nome curto de um rascunho novo: `rascunho/` e os oito primeiros
/// caracteres de um id novo. O ramo leva um id, não o nome que a pessoa deu:
/// nome de gente vira nome de ramo inválido na primeira barra ou acento.
pub fn ramo_novo() -> (r: (String, String))
    ensures
        r.1@.len() == 8,
        r.0@ == "rascunho/"@ + r.1@,
{
    let id = chars_de(novo_id().as_str());
    let curto = primeiros(&id, 8);
    let mut ramo: Vec<char> = Vec::new();
    anexar(&mut ramo, "rascunho/");
    anexar_chars(&mut ramo, &curto);
    (string_de(&ramo), string_de(&curto))
}

/// A frase de um workspace sem histórico.
pub open spec fn frase_sem_historico() -> Seq<char> {
    "este workspace não tem histórico, então não dá para usar rascunhos. Isso acontece quando o Git não está instalado na máquina."@
}

/// O repositório oculto de um workspace, ou a frase que explica que não há
/// rascunho. As duas causas (workspace antigo, máquina sem git) dão a mesma
/// frase: o que importa é que não há rascunho.
pub fn repo_ou_erro(repo: &Option<String>) -> (r: Result<String, Erro>)
    ensures
        match *repo {
            Some(x) => r matches Ok(y) && y@ == x@,
            None => r matches Err(Erro::Invalido(m)) && m@ == frase_sem_historico(),
        },
{
    match repo {
        Some(x) => Ok(x.clone()),
        None => Err(
            Erro::invalido(
                "este workspace não tem histórico, então não dá para usar rascunhos. Isso acontece quando o Git não está instalado na máquina.",
            ),
        ),
    }
}

/// Só um rascunho aberto se publica.
pub fn checar_publicavel(e: &Ensaio) -> (r: Result<(), Erro>)
    ensures
        e.estado == EstadoEnsaio::Aberto ==> r is Ok,
        e.estado != EstadoEnsaio::Aberto ==> (r matches Err(Erro::Invalido(m)) && m@
            == "o rascunho \""@ + e.nome@ + "\" já foi "@ + e.estado.rotulo()),
{
    if e.estado == EstadoEnsaio::Aberto {
        return Ok(());
    }
    let mut v: Vec<char> = Vec::new();
    anexar(&mut v, "o rascunho \"");
    anexar(&mut v, e.nome.as_str());
    anexar(&mut v, "\" já foi ");
    anexar(&mut v, e.estado.como_texto());
    Err(invalido_de(&v))
}

/// O lado de um conflito como o git o entende.
pub fn lado_no_git(lado: LadoDoConflito) -> (r: Lado)
    ensures
        lado == LadoDoConflito::Original <==> r == Lado::Original,
{
    match lado {
        LadoDoConflito::Original => Lado::Original,
        LadoDoConflito::Rascunho => Lado::Rascunho,
    }
}

/// As escolhas de quem publica, como o git as entende.
pub fn escolhas_no_git(escolhas: &Vec<(String, LadoDoConflito)>) -> (r: Vec<(String, Lado)>)
    ensures
        r@.len() == escolhas@.len(),
        forall|k: int|
            0 <= k < r@.len() ==> (#[trigger] r@[k]).0@ == escolhas@[k].0@ && (escolhas@[k].1
                == LadoDoConflito::Original <==> r@[k].1 == Lado::Original),
{
    let mut r: Vec<(String, Lado)> = Vec::new();
    let mut i: usize = 0;
    while i < escolhas.len()
        invariant
            i <= escolhas@.len(),
            r@.len() == i,
            forall|k: int|
                0 <= k < i ==> (#[trigger] r@[k]).0@ == escolhas@[k].0@ && (escolhas@[k].1
                    == LadoDoConflito::Original <==> r@[k].1 == Lado::Original),
        decreases escolhas@.len() - i,
    {
        r.push((escolhas[i].0.clone(), lado_no_git(escolhas[i].1)));
        i = i + 1;
    }
    r
}

/// A prévia de uma publicação: cada `(letra, caminho)` do git vira uma
/// mudança com nome de gente, na ordem, e os conflitos vão como vieram.
pub fn previa_da_publicacao(
    ensaio_id: &str,
    alterados: &Vec<(String, String)>,
    conflitos: Vec<String>,
) -> (r: PreviaPublicacao)
    ensures
        r.ensaio_id@ == ensaio_id@,
        r.conflitos@ == conflitos@,
        r.alteracoes@.len() == alterados@.len(),
        forall|k: int|
            0 <= k < alterados@.len() ==> (#[trigger] r.alteracoes@[k]).caminho@ == alterados@[k].1@
                && r.alteracoes@[k].como == mudanca_da_letra(alterados@[k].0@),
{
    let mut alteracoes: Vec<MudancaArquivo> = Vec::new();
    let mut i: usize = 0;
    while i < alterados.len()
        invariant
            i <= alterados@.len(),
            alteracoes@.len() == i,
            forall|k: int|
                0 <= k < i ==> (#[trigger] alteracoes@[k]).caminho@ == alterados@[k].1@
                    && alteracoes@[k].como == mudanca_da_letra(alterados@[k].0@),
        decreases alterados@.len() - i,
    {
        alteracoes.push(
            MudancaArquivo {
                caminho: alterados[i].1.clone(),
                como: TipoMudanca::da_letra(alterados[i].0.as_str()),
            },
        );
        i = i + 1;
    }
    PreviaPublicacao { ensaio_id: ensaio_id.to_string(), alteracoes, conflitos }
}

/// Descartar o rascunho em foco tira o foco dele antes: senão o trabalho
/// seguinte aconteceria num caminho que não existe mais.
pub fn descartar_tira_o_foco(ativo: &Option<String>, ensaio_id: &str) -> (r: bool)
    ensures
        r == (ativo matches Some(a) && a@ == ensaio_id@),
{
    match ativo {
        Some(a) => crate::texto::iguais(a.as_str(), ensaio_id),
        None => false,
    }
}

} // verus!
