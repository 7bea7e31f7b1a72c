//! Montar o time: as regras de recrutar e de dispensar.
//!
//! Recrutar é idempotente: pedir de novo o mesmo nome com o mesmo papel
//! devolve quem já existe, em vez de um segundo nó com um número no fim. Um
//! nome ocupado por outro papel é recusado dizendo quem o ocupa. Há dois
//! tetos: o de recrutas por cadeia e o de agentes por workspace. Só quem
//! recrutou dispensa, e dispensar encerra a sessão sem apagar o nó.

use crate::erro::{invalido_de, Erro};
use crate::ferramentas::mesmo_nome;
use crate::json::{conteudo_json, json_bool, json_objeto, json_texto, mapa_de, par, ValorJson};
use crate::modelo::{MAX_AGENTES_POR_WORKSPACE, MAX_RECRUTAS_POR_CADEIA};
use crate::texto::{
    anexar, anexar_chars, aparado, aparar, chars_de, decimal, em_minusculas, escrever_decimal,
    iguais, juntar, juntar_chars, minusculas, string_de,
};
use vstd::prelude::*;

verus! {

broadcast use vstd::string::group_string_axioms;

/// Um nó do workspace como o recrutamento o vê: id, nome e o papel dele.
pub open spec fn vista_no(n: (String, String, Option<String>)) -> (Seq<char>, Seq<char>, Option<Seq<char>>) {
    (
        n.0@,
        n.1@,
        match n.2 {
            Some(p) => Some(p@),
            None => None,
        },
    )
}

/// O primeiro nó que já usa o nome (sem ligar para caixa nem espaço nas
/// pontas): o id e o papel dele.
pub open spec fn ocupante(nos: Seq<(Seq<char>, Seq<char>, Option<Seq<char>>)>, nome: Seq<char>) -> Option<
    (Seq<char>, Option<Seq<char>>),
>
    decreases nos.len(),
{
    if nos.len() == 0 {
        None
    } else if mesmo_nome(nos[0].1, nome) {
        Some((nos[0].0, nos[0].2))
    } else {
        ocupante(nos.drop_first(), nome)
    }
}

/// A recusa de um papel que a biblioteca não tem: diz quais existem.
pub open spec fn frase_sem_papel(papel: Seq<char>, papeis: Seq<Seq<char>>) -> Seq<char> {
    "não existe papel \""@ + papel + "\" na biblioteca. Os que existem: "@ + juntar(papeis, ", "@) + "."@
}

/// Quem ocupa um nome, dito para o modelo.
pub open spec fn quem_ocupa(papel: Option<Seq<char>>) -> Seq<char> {
    match papel {
        Some(p) => "do papel "@ + p,
        None => "de um nó sem papel"@,
    }
}

/// A recusa de um nome ocupado por outro papel: diz quem o ocupa, para o
/// contorno não ser o mesmo nome com um número.
pub open spec fn frase_nome_ocupado(nome: Seq<char>, papel: Option<Seq<char>>) -> Seq<char> {
    "o nome \""@ + nome + "\" já existe no canvas: é "@ + quem_ocupa(papel)
        + ". Fale com ele, ou recrute com outro nome — não com um número no fim, que ninguém sabe com qual está falando."@
}

/// A recusa pelo teto de recrutas de uma cadeia.
pub open spec fn frase_teto_da_cadeia() -> Seq<char> {
    "esta cadeia já recrutou "@ + decimal(MAX_RECRUTAS_POR_CADEIA as nat)
        + " agentes, o limite dela. Trabalhe com o time que tem."@
}

/// A recusa pelo teto de agentes do workspace: diz o que fazer.
pub open spec fn frase_teto_do_workspace() -> Seq<char> {
    "o workspace já tem "@ + decimal(MAX_AGENTES_POR_WORKSPACE as nat)
        + " agentes. Use dispensar em quem já terminou antes de recrutar outro."@
}

/// O que recrutar decidiu.
#[derive(Debug, Clone, PartialEq)]
pub enum Recrutamento {
    /// Criar o nó, com o papel, ligado a quem recrutou.
    Novo,
    /// Já existe um nó com esse nome e esse papel: é ele (pelo id).
    JaExiste(String),
}

fn ocupante_exec(nos: &Vec<(String, String, Option<String>)>, nome: &str) -> (r: Option<(String, Option<String>)>)
    ensures
        match ocupante(nos@.map_values(|n: (String, String, Option<String>)| vista_no(n)), nome@) {
            Some((id, p)) => r matches Some((i, q)) && i@ == id && match q {
                Some(x) => p == Some(x@),
                None => p is None,
            },
            None => r is None,
        },
{
    let ghost ns = nos@.map_values(|n: (String, String, Option<String>)| vista_no(n));
    let procurado = em_minusculas(aparar(nome).as_str());
    let mut i: usize = 0;
    assert(ns.skip(0) =~= ns);
    while i < nos.len()
        invariant
            i <= nos@.len(),
            ns == nos@.map_values(|n: (String, String, Option<String>)| vista_no(n)),
            procurado@ == minusculas(aparado(nome@)),
            ocupante(ns, nome@) == ocupante(ns.skip(i as int), nome@),
        decreases nos@.len() - i,
    {
        let candidato = em_minusculas(aparar(nos[i].1.as_str()).as_str());
        proof {
            assert(ns.skip(i as int)[0] == ns[i as int]);
            assert(ns.skip(i as int).drop_first() =~= ns.skip(i + 1));
        }
        if candidato == procurado {
            let papel = match &nos[i].2 {
                Some(p) => Some(p.clone()),
                None => None,
            };
            return Some((nos[i].0.clone(), papel));
        }
        i = i + 1;
    }
    None
}

/// Decide um pedido de recrutamento.
///
/// `papeis` são os nomes da biblioteca; `nos`, os nós do workspace como
/// `(id, nome, papel)`; `recrutas_na_cadeia`, quantos a cadeia atual já
/// recrutou; `agentes_no_workspace`, quantos agentes o workspace tem. Nesta
/// ordem: o papel tem de existir; um nome já usado com o mesmo papel devolve
/// quem já existe, com outro papel é recusado dizendo quem o ocupa; depois
/// vêm o teto da cadeia e o do workspace.
pub fn decidir_recrutamento(
    papel: &str,
    papeis: &Vec<String>,
    nome: &str,
    nos: &Vec<(String, String, Option<String>)>,
    recrutas_na_cadeia: usize,
    agentes_no_workspace: usize,
) -> (r: Result<Recrutamento, Erro>)
    ensures
        ({
            let ps = papeis@.map_values(|s: String| s@);
            let ns = nos@.map_values(|n: (String, String, Option<String>)| vista_no(n));
            if !ps.contains(papel@) {
                r matches Err(Erro::Invalido(m)) && m@ == frase_sem_papel(papel@, ps)
            } else {
                match ocupante(ns, nome@) {
                    Some((id, p)) => if p == Some(papel@) {
                        r matches Ok(Recrutamento::JaExiste(i)) && i@ == id
                    } else {
                        r matches Err(Erro::Invalido(m)) && m@ == frase_nome_ocupado(nome@, p)
                    },
                    None => if recrutas_na_cadeia >= MAX_RECRUTAS_POR_CADEIA {
                        r matches Err(Erro::Invalido(m)) && m@ == frase_teto_da_cadeia()
                    } else if agentes_no_workspace >= MAX_AGENTES_POR_WORKSPACE {
                        r matches Err(Erro::Invalido(m)) && m@ == frase_teto_do_workspace()
                    } else {
                        r == Ok::<Recrutamento, Erro>(Recrutamento::Novo)
                    },
                }
            }
        }),
{
    let ghost ps = papeis@.map_values(|s: String| s@);
    if !crate::papeis::lista_contem(papeis, papel) {
        let mut partes: Vec<Vec<char>> = Vec::new();
        let mut i: usize = 0;
        while i < papeis.len()
            invariant
                i <= papeis@.len(),
                ps == papeis@.map_values(|s: String| s@),
                partes@.map_values(|p: Vec<char>| p@) == ps.take(i as int),
            decreases papeis@.len() - i,
        {
            let ghost antes = partes@;
            partes.push(chars_de(papeis[i].as_str()));
            proof {
                assert(partes@.map_values(|p: Vec<char>| p@) =~= antes.map_values(|p: Vec<char>| p@).push(
                    ps[i as int],
                ));
                assert(ps.take(i + 1) =~= ps.take(i as int).push(ps[i as int]));
            }
            i = i + 1;
        }
        proof {
            assert(ps.take(ps.len() as int) =~= ps);
        }
        let mut v: Vec<char> = Vec::new();
        anexar(&mut v, "não existe papel \"");
        anexar(&mut v, papel);
        anexar(&mut v, "\" na biblioteca. Os que existem: ");
        let lista = juntar_chars(&partes, ", ");
        anexar_chars(&mut v, &lista);
        anexar(&mut v, ".");
        return Err(invalido_de(&v));
    }
    match ocupante_exec(nos, nome) {
        Some((id, p)) => {
            let mesmo_papel = match &p {
                Some(x) => iguais(x.as_str(), papel),
                None => false,
            };
            if mesmo_papel {
                return Ok(Recrutamento::JaExiste(id));
            }
            let mut v: Vec<char> = Vec::new();
            anexar(&mut v, "o nome \"");
            anexar(&mut v, nome);
            anexar(&mut v, "\" já existe no canvas: é ");
            match &p {
                Some(x) => {
                    anexar(&mut v, "do papel ");
                    anexar(&mut v, x.as_str());
                },
                None => {
                    anexar(&mut v, "de um nó sem papel");
                },
            }
            anexar(
                &mut v,
                ". Fale com ele, ou recrute com outro nome — não com um número no fim, que ninguém sabe com qual está falando.",
            );
            Err(invalido_de(&v))
        },
        None => {
            if recrutas_na_cadeia >= MAX_RECRUTAS_POR_CADEIA {
                let mut v: Vec<char> = Vec::new();
                anexar(&mut v, "esta cadeia já recrutou ");
                let n = escrever_decimal(MAX_RECRUTAS_POR_CADEIA as u64);
                anexar_chars(&mut v, &n);
                anexar(&mut v, " agentes, o limite dela. Trabalhe com o time que tem.");
                return Err(invalido_de(&v));
            }
            if agentes_no_workspace >= MAX_AGENTES_POR_WORKSPACE {
                let mut v: Vec<char> = Vec::new();
                anexar(&mut v, "o workspace já tem ");
                let n = escrever_decimal(MAX_AGENTES_POR_WORKSPACE as u64);
                anexar_chars(&mut v, &n);
                anexar(&mut v, " agentes. Use dispensar em quem já terminou antes de recrutar outro.");
                return Err(invalido_de(&v));
            }
            Ok(Recrutamento::Novo)
        },
    }
}

/// A recusa de dispensar quem não foi recrutado por quem pede.
pub open spec fn frase_nao_recrutou(nome: Seq<char>) -> Seq<char> {
    "\""@ + nome + "\" não foi recrutado por você, e quem não recrutou não dispensa."@
}

/// Só quem recrutou dispensa. `recrutado_por` é quem recrutou o nó `nome`
/// (nenhum, se foi uma pessoa que o criou); `quem` é o nó que pede.
pub fn checar_dispensa(quem: &str, recrutado_por: &Option<String>, nome: &str) -> (r: Result<(), Erro>)
    ensures
        (recrutado_por matches Some(q) && q@ == quem@) ==> r is Ok,
        !(recrutado_por matches Some(q) && q@ == quem@) ==> (r matches Err(Erro::Invalido(m)) && m@
            == frase_nao_recrutou(nome@)),
{
    let ok = match recrutado_por {
        Some(q) => iguais(q.as_str(), quem),
        None => false,
    };
    if ok {
        return Ok(());
    }
    let mut v: Vec<char> = Vec::new();
    anexar(&mut v, "\"");
    anexar(&mut v, nome);
    anexar(&mut v, "\" não foi recrutado por você, e quem não recrutou não dispensa.");
    Err(invalido_de(&v))
}

/// A linha que a conversa do dispensado ganha: quem o dispensou.
pub fn texto_de_dispensa(quem: &str) -> (r: String)
    ensures
        r@ == "Dispensado por "@ + quem@ + "."@,
{
    let mut v: Vec<char> = Vec::new();
    anexar(&mut v, "Dispensado por ");
    anexar(&mut v, quem);
    anexar(&mut v, ".");
    string_de(&v)
}

/// A resposta de `recrutar`: o nome com que o nó aparece.
pub fn resultado_de_recrutamento(nome: &str) -> (r: serde_json::Value)
    ensures
        conteudo_json(r) == ValorJson::Objeto(mapa_de(seq![("no"@, ValorJson::Texto(nome@))])),
{
    let mut ps: Vec<(String, serde_json::Value)> = Vec::new();
    ps.push(par("no", json_texto(nome)));
    assert(ps@.map_values(|p: (String, serde_json::Value)| (p.0@, conteudo_json(p.1)))
        =~= seq![("no"@, ValorJson::Texto(nome@))]);
    json_objeto(ps)
}

/// A resposta de `dispensar`: `{"encerrado": true}`.
pub fn resultado_de_dispensa() -> (r: serde_json::Value)
    ensures
        conteudo_json(r) == ValorJson::Objeto(mapa_de(seq![("encerrado"@, ValorJson::Booleano(true))])),
{
    let mut ps: Vec<(String, serde_json::Value)> = Vec::new();
    ps.push(par("encerrado", json_bool(true)));
    assert(ps@.map_values(|p: (String, serde_json::Value)| (p.0@, conteudo_json(p.1)))
        =~= seq![("encerrado"@, ValorJson::Booleano(true))]);
    json_objeto(ps)
}

} // verus!
