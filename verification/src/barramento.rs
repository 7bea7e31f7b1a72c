//! Barramento: por onde o agente pede licença.
//!
//! Antes de rodar uma ferramenta, a CLI pergunta ao barramento. O que decide
//! a resposta mora aqui e não conhece HTTP nem banco: se a ferramenta pede
//! licença, se uma regra de "não perguntar de novo" vale para ela, o que o
//! card mostra e o que o agente ouve depois do clique.
//!
//! A regra que governa tudo: **nada que grava passa sem o clique de alguém**
//! — ou o clique de agora, no card, ou o de antes, numa regra que só as
//! gravações na pasta aceitam.

use crate::erro::{Erro, Resultado};
use crate::ferramentas::{grava, nome_completo, nome_completo_spec, FERRAMENTAS_QUE_GRAVAM};
use crate::json::{
    bytes_utf8, campo, campo_spec, como_str, conteudo_json, json_objeto,
    json_objeto_vazio, json_texto, mapa_de, par, serializar, texto_do_campo, texto_json,
    texto_ou_vazio, ValorJson,
};
use crate::modelo::{novo_id, Decisao, ServidorMcp};
use crate::texto::{
    anexar, anexar_chars, ate, chars_de, comeca_com, comeca_com_chars, decimal,
    escrever_decimal, iguais, juntar, juntar_chars, linhas, partir_linhas, primeiros,
    segmento_final, string_de, ultimo_segmento,
};
use vstd::prelude::*;

verus! {

broadcast use vstd::string::group_string_axioms;

/// Quanto tempo o agente fica parado esperando alguém clicar, em segundos.
pub const PRAZO_APROVACAO_S: u64 = 1800;

/// O cabeçalho onde o token viaja.
pub const CABECALHO_TOKEN: &'static str = "X-Mutirao-Token";

/// Ferramentas nativas que exigem licença: escrever e rodar comando.
pub const FERRAMENTAS_QUE_PEDEM_LICENCA: [&'static str; 5] = [
    "Write",
    "Edit",
    "NotebookEdit",
    "Bash",
    "WebFetch",
];

/// Destas o usuário pode dizer "não perguntar de novo nesta pasta".
pub const FERRAMENTAS_QUE_ACEITAM_REGRA: [&'static str; 3] = ["Write", "Edit", "NotebookEdit"];

pub open spec fn licenca_nativa(n: Seq<char>) -> bool {
    n == "Write"@ || n == "Edit"@ || n == "NotebookEdit"@ || n == "Bash"@ || n == "WebFetch"@
}

pub open spec fn regra_nativa(n: Seq<char>) -> bool {
    n == "Write"@ || n == "Edit"@ || n == "NotebookEdit"@
}

/// O nome completo de uma das nossas que gravam.
pub open spec fn grava_pelo_barramento(n: Seq<char>) -> bool {
    n == nome_completo_spec("escrever_nota"@) || n == nome_completo_spec("escrever_arquivo"@)
}

/// A ferramenta precisa de licença: as nativas que escrevem ou rodam
/// comando, e as nossas que gravam, pelo nome completo.
pub open spec fn pede_licenca_spec(n: Seq<char>) -> bool {
    licenca_nativa(n) || grava_pelo_barramento(n)
}

/// A ferramenta aceita "não perguntar de novo": gravar na pasta, e só isso.
pub open spec fn aceita_regra_spec(n: Seq<char>) -> bool {
    regra_nativa(n) || grava_pelo_barramento(n)
}

/// O prefixo das ferramentas de um servidor de fora.
pub open spec fn prefixo_de(servidor: Seq<char>) -> Seq<char> {
    "mcp__"@ + servidor + "__"@
}

/// A ferramenta é de um dos servidores de fora.
pub open spec fn de_fora_spec(n: Seq<char>, servidores: Seq<ServidorMcp>) -> bool {
    exists|i: int| 0 <= i < servidores.len() && comeca_com(n, prefixo_de(servidores[i].nome@))
}

/// Está entre as que pedem licença?
pub fn pede_licenca(nome: &str) -> (r: bool)
    ensures
        r == pede_licenca_spec(nome@),
{
    if iguais(nome, "Write") || iguais(nome, "Edit") || iguais(nome, "NotebookEdit") || iguais(
        nome,
        "Bash",
    ) || iguais(nome, "WebFetch") {
        return true;
    }
    let a = nome_completo(FERRAMENTAS_QUE_GRAVAM[0]);
    let b = nome_completo(FERRAMENTAS_QUE_GRAVAM[1]);
    iguais(nome, a.as_str()) || iguais(nome, b.as_str())
}

/// Aceita "não perguntar de novo"? Rodar comando e ação de fora, nunca.
pub fn aceita_regra(nome: &str) -> (r: bool)
    ensures
        r == aceita_regra_spec(nome@),
{
    if iguais(nome, "Write") || iguais(nome, "Edit") || iguais(nome, "NotebookEdit") {
        return true;
    }
    let a = nome_completo(FERRAMENTAS_QUE_GRAVAM[0]);
    let b = nome_completo(FERRAMENTAS_QUE_GRAVAM[1]);
    iguais(nome, a.as_str()) || iguais(nome, b.as_str())
}

/// O prefixo `mcp__<servidor>__` em caracteres.
fn prefixo_chars(servidor: &str) -> (r: Vec<char>)
    ensures
        r@ == prefixo_de(servidor@),
{
    let mut v: Vec<char> = Vec::new();
    anexar(&mut v, "mcp__");
    anexar(&mut v, servidor);
    anexar(&mut v, "__");
    v
}

/// A ferramenta é de um servidor MCP de fora? Essas pedem card sempre: a
/// chamada vai do agente direto ao servidor do outro, e o hook é a única
/// linha de defesa.
pub fn e_de_fora(nome: &str, servidores: &[ServidorMcp]) -> (r: bool)
    ensures
        r == de_fora_spec(nome@, servidores@),
{
    let n = chars_de(nome);
    let mut i: usize = 0;
    while i < servidores.len()
        invariant
            i <= servidores@.len(),
            n@ == nome@,
            forall|k: int|
                0 <= k < i ==> !comeca_com(nome@, prefixo_de(#[trigger] servidores@[k].nome@)),
        decreases servidores@.len() - i,
    {
        let p = prefixo_chars(servidores[i].nome.as_str());
        if comeca_com_chars(&n, &p) {
            return true;
        }
        i = i + 1;
    }
    false
}

/// As partes do matcher do hook, na ordem.
pub open spec fn partes_do_matcher(servidores: Seq<ServidorMcp>) -> Seq<Seq<char>> {
    seq!["Write"@, "Edit"@, "NotebookEdit"@, "Bash"@, "WebFetch"@]
        + seq![nome_completo_spec("escrever_nota"@), nome_completo_spec("escrever_arquivo"@)]
        + servidores.map_values(|s: ServidorMcp| prefixo_de(s.nome@) + ".*"@)
}

/// O `matcher` do hook de aprovação: uma regex que casa com tudo que pede
/// licença — as nativas, as nossas que gravam, e qualquer ferramenta de um
/// servidor de fora.
pub fn matcher_do_hook(servidores: &[ServidorMcp]) -> (r: String)
    ensures
        r@ == juntar(partes_do_matcher(servidores@), "|"@),
{
    let mut partes: Vec<Vec<char>> = Vec::new();
    let mut i: usize = 0;
    while i < 5
        invariant
            i <= 5,
            partes@.map_values(|p: Vec<char>| p@) == partes_do_matcher(servidores@).take(i as int),
        decreases 5 - i,
    {
        let ghost antes = partes@;
        partes.push(chars_de(FERRAMENTAS_QUE_PEDEM_LICENCA[i]));
        proof {
            assert(partes@.map_values(|p: Vec<char>| p@) == antes.map_values(|p: Vec<char>| p@).push(
                FERRAMENTAS_QUE_PEDEM_LICENCA[i as int]@,
            ));
            assert(partes_do_matcher(servidores@).take(i + 1) == partes_do_matcher(
                servidores@,
            ).take(i as int).push(partes_do_matcher(servidores@)[i as int]));
        }
        i = i + 1;
    }
    let mut j: usize = 0;
    while j < 2
        invariant
            j <= 2,
            partes@.map_values(|p: Vec<char>| p@) == partes_do_matcher(servidores@).take(5 + j),
        decreases 2 - j,
    {
        let ghost antes = partes@;
        let nome = nome_completo(FERRAMENTAS_QUE_GRAVAM[j]);
        partes.push(chars_de(nome.as_str()));
        proof {
            assert(partes@.map_values(|p: Vec<char>| p@) == antes.map_values(|p: Vec<char>| p@).push(
                nome@,
            ));
            assert(partes_do_matcher(servidores@).take(5 + j + 1) == partes_do_matcher(
                servidores@,
            ).take(5 + j).push(partes_do_matcher(servidores@)[5 + j]));
        }
        j = j + 1;
    }
    let mut k: usize = 0;
    while k < servidores.len()
        invariant
            k <= servidores@.len(),
            partes@.map_values(|p: Vec<char>| p@) == partes_do_matcher(servidores@).take(7 + k),
        decreases servidores@.len() - k,
    {
        let ghost antes = partes@;
        let mut p = prefixo_chars(servidores[k].nome.as_str());
        anexar(&mut p, ".*");
        partes.push(p);
        proof {
            assert(partes@.map_values(|p: Vec<char>| p@) == antes.map_values(|p: Vec<char>| p@).push(
                p@,
            ));
            assert(partes_do_matcher(servidores@).take(7 + k + 1) == partes_do_matcher(
                servidores@,
            ).take(7 + k).push(partes_do_matcher(servidores@)[7 + k]));
        }
        k = k + 1;
    }
    proof {
        assert(partes_do_matcher(servidores@).take(7 + servidores@.len() as int) == partes_do_matcher(
            servidores@,
        ));
    }
    let v = juntar_chars(&partes, "|");
    string_de(&v)
}

// --------------------------------------------------------------- veredito

/// A resposta ao hook.
#[derive(Debug, Clone, PartialEq)]
pub struct Veredito {
    pub permitir: bool,
    pub motivo: String,
}

impl Veredito {
    fn permitir(motivo: &str) -> (r: Veredito)
        ensures
            r.permitir && r.motivo@ == motivo@,
    {
        Veredito { permitir: true, motivo: motivo.to_string() }
    }

    fn negar(motivo: &str) -> (r: Veredito)
        ensures
            !r.permitir && r.motivo@ == motivo@,
    {
        Veredito { permitir: false, motivo: motivo.to_string() }
    }

    /// A resposta que a CLI espera.
    pub fn como_json(&self) -> (r: serde_json::Value)
        ensures
            conteudo_json(r) == ValorJson::Objeto(
                mapa_de(
                    seq![
                        (
                            "hookSpecificOutput"@,
                            ValorJson::Objeto(
                                mapa_de(
                                    seq![
                                        ("hookEventName"@, ValorJson::Texto("PreToolUse"@)),
                                        (
                                            "permissionDecision"@,
                                            ValorJson::Texto(
                                                if self.permitir {
                                                    "allow"@
                                                } else {
                                                    "deny"@
                                                },
                                            ),
                                        ),
                                        (
                                            "permissionDecisionReason"@,
                                            ValorJson::Texto(self.motivo@),
                                        ),
                                    ],
                                ),
                            ),
                        ),
                    ],
                ),
            ),
    {
        let decisao = if self.permitir {
            "allow"
        } else {
            "deny"
        };
        let mut dentro: Vec<(String, serde_json::Value)> = Vec::new();
        dentro.push(par("hookEventName", json_texto("PreToolUse")));
        dentro.push(par("permissionDecision", json_texto(decisao)));
        dentro.push(par("permissionDecisionReason", json_texto(self.motivo.as_str())));
        let ghost sd = dentro@.map_values(
            |p: (String, serde_json::Value)| (p.0@, conteudo_json(p.1)),
        );
        assert(sd =~= seq![
            ("hookEventName"@, ValorJson::Texto("PreToolUse"@)),
            (
                "permissionDecision"@,
                ValorJson::Texto(
                    if self.permitir {
                        "allow"@
                    } else {
                        "deny"@
                    },
                ),
            ),
            ("permissionDecisionReason"@, ValorJson::Texto(self.motivo@)),
        ]);
        let interno = json_objeto(dentro);
        let mut fora: Vec<(String, serde_json::Value)> = Vec::new();
        fora.push(par("hookSpecificOutput", interno));
        let ghost sf = fora@.map_values(
            |p: (String, serde_json::Value)| (p.0@, conteudo_json(p.1)),
        );
        assert(sf =~= seq![("hookSpecificOutput"@, conteudo_json(interno))]);
        json_objeto(fora)
    }
}

pub open spec fn motivo_leitura() -> Seq<char> {
    "Leitura não precisa de aprovação."@
}

pub open spec fn motivo_regra() -> Seq<char> {
    "Você já tinha liberado isto nesta pasta."@
}

pub open spec fn motivo_aprovado() -> Seq<char> {
    "Aprovado por você no Mutirão."@
}

pub open spec fn motivo_negado() -> Seq<char> {
    "Negado no Mutirão. Não tente de novo por outro caminho; explique o que queria fazer e pergunte."@
}

/// O que fazer com um pedido de ferramenta, antes de qualquer clique.
#[derive(Debug, Clone, PartialEq)]
pub enum Passo {
    /// Não pede licença: passa na hora.
    Liberar(Veredito),
    /// Pede licença, mas uma regra de "não perguntar de novo" já decidiu.
    PelaRegra(Veredito),
    /// Abre o card e espera alguém.
    PedirCard,
}

/// O primeiro passo, como especificação.
pub open spec fn primeiro_passo_spec(
    ferramenta: Seq<char>,
    servidores: Seq<ServidorMcp>,
    ha_regra: bool,
) -> int {
    if !pede_licenca_spec(ferramenta) && !de_fora_spec(ferramenta, servidores) {
        0
    } else if ha_regra && aceita_regra_spec(ferramenta) && !de_fora_spec(ferramenta, servidores) {
        1
    } else {
        2
    }
}

/// `r` é o passo que o pedido da ferramenta dá, com os servidores de fora e
/// a regra dados.
pub open spec fn passo_ok(r: Passo, ferramenta: Seq<char>, servidores: Seq<ServidorMcp>, ha_regra: bool) -> bool {
    &&& (primeiro_passo_spec(ferramenta, servidores, ha_regra) == 0 <==> (r matches Passo::Liberar(v)
        && v.permitir && v.motivo@ == motivo_leitura()))
    &&& (primeiro_passo_spec(ferramenta, servidores, ha_regra) == 1 <==> (r matches Passo::PelaRegra(v)
        && v.permitir && v.motivo@ == motivo_regra()))
    &&& (primeiro_passo_spec(ferramenta, servidores, ha_regra) == 2 <==> r is PedirCard)
}

/// Decide o pedido até onde dá sem perguntar a ninguém.
///
/// Ler não pede licença. Gravar pede, e só uma regra concedida antes para
/// gravar nesta pasta dispensa o card; comando e ferramenta de fora sempre
/// abrem card.
pub fn primeiro_passo(ferramenta: &str, servidores: &[ServidorMcp], ha_regra: bool) -> (r: Passo)
    ensures
        passo_ok(r, ferramenta@, servidores@, ha_regra),
{
    let fora = e_de_fora(ferramenta, servidores);
    if !pede_licenca(ferramenta) && !fora {
        Passo::Liberar(Veredito::permitir("Leitura não precisa de aprovação."))
    } else if ha_regra && aceita_regra(ferramenta) && !fora {
        Passo::PelaRegra(Veredito::permitir("Você já tinha liberado isto nesta pasta."))
    } else {
        Passo::PedirCard
    }
}

/// O que o agente ouve depois do clique.
pub fn veredito_da_decisao(decisao: Decisao) -> (r: Veredito)
    ensures
        decisao == Decisao::Aprovada ==> r.permitir && r.motivo@ == motivo_aprovado(),
        decisao == Decisao::Negada ==> !r.permitir && r.motivo@ == motivo_negado(),
{
    match decisao {
        Decisao::Aprovada => Veredito::permitir("Aprovado por você no Mutirão."),
        Decisao::Negada => Veredito::negar(
            "Negado no Mutirão. Não tente de novo por outro caminho; explique o que queria fazer e pergunte.",
        ),
    }
}

/// O id da chamada de ferramenta: `<sessão>:<id do pedido>`.
pub fn id_da_chamada(session_id: &str, id_externo: &str) -> (r: String)
    ensures
        r@ == session_id@ + ":"@ + id_externo@,
{
    let mut v: Vec<char> = Vec::new();
    anexar(&mut v, session_id);
    anexar(&mut v, ":");
    anexar(&mut v, id_externo);
    string_de(&v)
}

/// Nada que grava passa sem clique: o que pede licença nunca é liberado
/// direto, e o que não aceita regra (rodar comando, ferramenta de fora) só
/// passa pelo card.
pub proof fn lei_nada_grava_sem_clique(f: Seq<char>, servidores: Seq<ServidorMcp>, ha_regra: bool)
    ensures
        pede_licenca_spec(f) ==> primeiro_passo_spec(f, servidores, ha_regra) != 0,
        pede_licenca_spec(f) && !aceita_regra_spec(f) ==> primeiro_passo_spec(
            f,
            servidores,
            ha_regra,
        ) == 2,
        de_fora_spec(f, servidores) ==> primeiro_passo_spec(f, servidores, ha_regra) == 2,
        !ha_regra && pede_licenca_spec(f) ==> primeiro_passo_spec(f, servidores, ha_regra) == 2,
{
}

/// Rodar comando nunca vira permissão permanente.
pub proof fn lei_comando_nunca_vira_regra()
    ensures
        pede_licenca_spec("Bash"@),
        !aceita_regra_spec("Bash"@),
{
    reveal_strlit("Bash");
    reveal_strlit("Write");
    reveal_strlit("Edit");
    reveal_strlit("NotebookEdit");
    reveal_strlit("mcp__mutirao__");
    assert("Bash"@.len() != "Write"@.len());
    assert("Bash"@[0] != "Edit"@[0]);
    assert("Bash"@.len() != "NotebookEdit"@.len());
    assert(nome_completo_spec("escrever_nota"@).len() > 4);
    assert(nome_completo_spec("escrever_arquivo"@).len() > 4);
}

/// As do barramento que gravam pedem card pelo nome completo, e aceitam a
/// regra de gravar nesta pasta como o `Write`.
pub proof fn lei_gravar_pelo_barramento_pede_card(g: Seq<char>)
    requires
        grava(g),
    ensures
        pede_licenca_spec(nome_completo_spec(g)),
        aceita_regra_spec(nome_completo_spec(g)),
{
}

// ------------------------------------------------------------------ card

/// Um número de bytes com uma casa decimal de kB, arredondado para o par no
/// empate: como `{:.1}` escreve `bytes / 1024`.
pub open spec fn decimos_de_kb(bytes: nat) -> nat {
    let q = (bytes * 10) / 1024;
    let r = (bytes * 10) % 1024;
    if r > 512 || (r == 512 && q % 2 == 1) {
        q + 1
    } else {
        q
    }
}

/// O tamanho como o card mostra: `N B` abaixo de 1024, senão `X.Y kB`.
pub open spec fn tamanho_spec(bytes: nat) -> Seq<char> {
    if bytes < 1024 {
        decimal(bytes) + " B"@
    } else {
        let d = decimos_de_kb(bytes);
        decimal(d / 10) + "."@ + decimal(d % 10) + " kB"@
    }
}

/// O tamanho de um conteúdo, para o card.
pub fn tamanho(bytes: usize) -> (r: Vec<char>)
    ensures
        r@ == tamanho_spec(bytes as nat),
{
    if bytes < 1024 {
        let mut v = escrever_decimal(bytes as u64);
        anexar(&mut v, " B");
        v
    } else {
        let dez: u128 = (bytes as u128) * 10;
        let q: u128 = dez / 1024;
        let r: u128 = dez % 1024;
        let d: u128 = if r > 512 || (r == 512 && q % 2 == 1) {
            q + 1
        } else {
            q
        };
        assert(d == decimos_de_kb(bytes as nat));
        assert(d / 10 <= u64::MAX) by (nonlinear_arith)
            requires
                d <= (bytes as u128) * 10 / 1024 + 1,
                bytes <= usize::MAX,
        ;
        let mut v = escrever_decimal((d / 10) as u64);
        anexar(&mut v, ".");
        let u = escrever_decimal((d % 10) as u64);
        anexar_chars(&mut v, &u);
        anexar(&mut v, " kB");
        v
    }
}

/// As linhas de um texto.
pub fn contar_linhas(v: &Vec<char>) -> (r: usize)
    ensures
        r == linhas(v@).len(),
{
    let ls = partir_linhas(v);
    ls.len()
}

/// "N linhas · T": o detalhe de um conteúdo que vai ser gravado.
pub open spec fn linhas_e_tamanho(conteudo: Seq<char>) -> Seq<char> {
    decimal(linhas(conteudo).len()) + " linhas · "@ + tamanho_spec(
        (bytes_utf8(conteudo) as usize) as nat,
    )
}

fn detalhe_de_conteudo(conteudo: &str) -> (r: Vec<char>)
    ensures
        r@ == linhas_e_tamanho(conteudo@),
{
    let cs = chars_de(conteudo);
    let n = contar_linhas(&cs);
    let mut v = escrever_decimal(n as u64);
    anexar(&mut v, " linhas · ");
    let t = tamanho(conteudo.len());
    anexar_chars(&mut v, &t);
    v
}

/// O texto de um campo dos argumentos.
pub open spec fn campo_txt(args: ValorJson, c: Seq<char>) -> Seq<char> {
    texto_ou_vazio(args, c)
}

/// O resumo e o detalhe do card, em português de gente.
pub open spec fn descricao_spec(ferramenta: Seq<char>, args: ValorJson) -> (Seq<char>, Seq<char>) {
    if ferramenta == "Write"@ {
        (
            "Gravar "@ + ultimo_segmento(campo_txt(args, "file_path"@)),
            linhas_e_tamanho(campo_txt(args, "content"@)),
        )
    } else if ferramenta == "Edit"@ || ferramenta == "NotebookEdit"@ {
        (
            "Alterar "@ + ultimo_segmento(campo_txt(args, "file_path"@)),
            "trecho substituído no arquivo"@,
        )
    } else if ferramenta == "Bash"@ {
        ("Rodar um comando"@, ate(campo_txt(args, "command"@), 120))
    } else if ferramenta == nome_completo_spec("escrever_nota"@) {
        (
            "Escrever na nota "@ + campo_txt(args, "nota"@),
            (if campo_txt(args, "modo"@) == "acrescentar"@ {
                "acrescentar em"@
            } else {
                "gravar"@
            }) + " · "@ + linhas_e_tamanho(campo_txt(args, "conteudo"@)),
        )
    } else if ferramenta == nome_completo_spec("escrever_arquivo"@) {
        (
            "Gravar "@ + ultimo_segmento(campo_txt(args, "caminho"@)),
            linhas_e_tamanho(campo_txt(args, "conteudo"@)),
        )
    } else {
        ("Usar "@ + ferramenta, ate(texto_json(args), 120))
    }
}

fn campo_em_chars(args: &serde_json::Value, c: &str) -> (r: Vec<char>)
    ensures
        r@ == campo_txt(conteudo_json(*args), c@),
{
    match texto_do_campo(args, c) {
        Some(s) => chars_de(s),
        None => Vec::new(),
    }
}

fn arquivo_do_campo(args: &serde_json::Value, c: &str) -> (r: Vec<char>)
    ensures
        r@ == ultimo_segmento(campo_txt(conteudo_json(*args), c@)),
{
    let v = campo_em_chars(args, c);
    segmento_final(&v)
}

/// Descreve um pedido de ferramenta: uma linha do que vai acontecer e uma do
/// tamanho ou do comando. Nome desconhecido aparece cru, nunca com um verbo
/// inventado.
pub fn descrever_ferramenta(ferramenta: &str, argumentos: &serde_json::Value) -> (r: (
    String,
    String,
))
    ensures
        (r.0@, r.1@) == descricao_spec(ferramenta@, conteudo_json(*argumentos)),
{
    let nota = nome_completo(FERRAMENTAS_QUE_GRAVAM[0]);
    let arquivo = nome_completo(FERRAMENTAS_QUE_GRAVAM[1]);
    let mut resumo: Vec<char> = Vec::new();
    let mut detalhe: Vec<char> = Vec::new();
    if iguais(ferramenta, "Write") {
        anexar(&mut resumo, "Gravar ");
        anexar_chars(&mut resumo, &arquivo_do_campo(argumentos, "file_path"));
        let c = campo_em_chars(argumentos, "content");
        let s = string_de(&c);
        detalhe = detalhe_de_conteudo(s.as_str());
    } else if iguais(ferramenta, "Edit") || iguais(ferramenta, "NotebookEdit") {
        anexar(&mut resumo, "Alterar ");
        anexar_chars(&mut resumo, &arquivo_do_campo(argumentos, "file_path"));
        anexar(&mut detalhe, "trecho substituído no arquivo");
    } else if iguais(ferramenta, "Bash") {
        anexar(&mut resumo, "Rodar um comando");
        detalhe = primeiros(&campo_em_chars(argumentos, "command"), 120);
    } else if iguais(ferramenta, nota.as_str()) {
        anexar(&mut resumo, "Escrever na nota ");
        anexar_chars(&mut resumo, &campo_em_chars(argumentos, "nota"));
        let modo = string_de(&campo_em_chars(argumentos, "modo"));
        if iguais(modo.as_str(), "acrescentar") {
            anexar(&mut detalhe, "acrescentar em");
        } else {
            anexar(&mut detalhe, "gravar");
        }
        anexar(&mut detalhe, " · ");
        let c = string_de(&campo_em_chars(argumentos, "conteudo"));
        anexar_chars(&mut detalhe, &detalhe_de_conteudo(c.as_str()));
    } else if iguais(ferramenta, arquivo.as_str()) {
        anexar(&mut resumo, "Gravar ");
        anexar_chars(&mut resumo, &arquivo_do_campo(argumentos, "caminho"));
        let c = string_de(&campo_em_chars(argumentos, "conteudo"));
        detalhe = detalhe_de_conteudo(c.as_str());
    } else {
        anexar(&mut resumo, "Usar ");
        anexar(&mut resumo, ferramenta);
        let t = serializar(argumentos);
        detalhe = primeiros(&chars_de(t.as_str()), 120);
    }
    (string_de(&resumo), string_de(&detalhe))
}

/// O texto que a prévia do card olha: `content`, senão `new_string`, senão
/// `command` — o primeiro que existir, e só se for texto.
pub open spec fn bruto_da_previa(args: ValorJson) -> Option<Seq<char>> {
    let c = if campo_spec(args, "content"@) is Some {
        campo_spec(args, "content"@)
    } else if campo_spec(args, "new_string"@) is Some {
        campo_spec(args, "new_string"@)
    } else {
        campo_spec(args, "command"@)
    };
    match c {
        Some(ValorJson::Texto(s)) => Some(s),
        _ => None,
    }
}

/// A prévia do card: até 600 caracteres, e `\n…` quando corta.
pub open spec fn previa_spec(args: ValorJson) -> Option<Seq<char>> {
    match bruto_da_previa(args) {
        Some(s) => if s.len() <= 600 {
            Some(s)
        } else {
            Some(s.take(600) + "\n…"@)
        },
        None => None,
    }
}

/// A prévia que aparece no card, encolhida.
pub fn previa_do_conteudo(argumentos: &serde_json::Value) -> (r: Option<String>)
    ensures
        match r {
            Some(s) => previa_spec(conteudo_json(*argumentos)) == Some(s@),
            None => previa_spec(conteudo_json(*argumentos)) is None,
        },
{
    let c = match campo(argumentos, "content") {
        Some(x) => Some(x),
        None => match campo(argumentos, "new_string") {
            Some(x) => Some(x),
            None => campo(argumentos, "command"),
        },
    };
    let x = match c {
        Some(x) => x,
        None => return None,
    };
    let bruto = match como_str(x) {
        Some(s) => s,
        None => return None,
    };
    let cs = chars_de(bruto);
    if cs.len() <= 600 {
        return Some(bruto.to_string());
    }
    let mut v = primeiros(&cs, 600);
    anexar(&mut v, "\n…");
    Some(string_de(&v))
}

// --------------------------------------------------------- pedido do hook

/// O que o hook da CLI do agente perguntou.
#[derive(Debug)]
pub struct PedidoDoHook {
    pub ferramenta: String,
    pub argumentos: serde_json::Value,
    pub id_externo: String,
}

impl PedidoDoHook {
    /// Lê o corpo que a CLI manda. Sem `tool_name` é erro; sem `tool_input`,
    /// argumentos vazios; sem `tool_use_id`, um id sintético `hook_` e oito
    /// caracteres.
    pub fn do_json(v: &serde_json::Value) -> (r: Resultado<PedidoDoHook>)
        ensures
            ({
                let j = conteudo_json(*v);
                match r {
                    Err(e) => (e matches Erro::Invalido(m) && m@ == "pedido sem tool_name"@)
                        && texto_do_campo_spec(j, "tool_name"@) is None,
                    Ok(p) => {
                        &&& texto_do_campo_spec(j, "tool_name"@) == Some(p.ferramenta@)
                        &&& conteudo_json(p.argumentos) == match campo_spec(j, "tool_input"@) {
                            Some(a) => a,
                            None => ValorJson::Objeto(Map::empty()),
                        }
                        &&& match texto_do_campo_spec(j, "tool_use_id"@) {
                            Some(id) => p.id_externo@ == id,
                            None => p.id_externo@.len() == 13 && p.id_externo@.take(5)
                                == "hook_"@,
                        }
                    },
                }
            }),
    {
        let ferramenta = match texto_do_campo(v, "tool_name") {
            Some(s) => s.to_string(),
            None => return Err(Erro::invalido("pedido sem tool_name")),
        };
        let argumentos = match campo(v, "tool_input") {
            Some(a) => a.clone(),
            None => json_objeto_vazio(),
        };
        let id_externo = match texto_do_campo(v, "tool_use_id") {
            Some(s) => s.to_string(),
            None => {
                let id = novo_id();
                let cs = chars_de(id.as_str());
                let mut w: Vec<char> = Vec::new();
                anexar(&mut w, "hook_");
                proof {
                    reveal_strlit("hook_");
                }
                let oito = primeiros(&cs, 8);
                let ghost antes = w@;
                anexar_chars(&mut w, &oito);
                proof {
                    assert(w@.take(5) == antes);
                }
                string_de(&w)
            },
        };
        Ok(PedidoDoHook { ferramenta, argumentos, id_externo })
    }
}

/// O texto de uma chave, quando ela existe e é texto.
pub open spec fn texto_do_campo_spec(j: ValorJson, k: Seq<char>) -> Option<Seq<char>> {
    match campo_spec(j, k) {
        Some(ValorJson::Texto(s)) => Some(s),
        _ => None,
    }
}

/// Lê um pedido do hook: recusa sem token e corpo que não é JSON, antes de
/// olhar o que foi pedido. Quem decide é [`primeiro_passo`].
pub fn ler_pedido(token: &str, corpo: &str) -> (r: Resultado<PedidoDoHook>)
    ensures
        crate::texto::aparado(token@).len() == 0 ==> (r matches Err(Erro::Invalido(m))
            && m@ == "sem token"@),
        crate::texto::aparado(token@).len() != 0 && crate::json::json_de_texto(corpo@) is None
            ==> (r matches Err(Erro::Invalido(m)) && m@ == "corpo não é json"@),
        crate::texto::aparado(token@).len() != 0 && crate::json::json_de_texto(corpo@) is Some
            ==> (r is Ok <==> texto_do_campo_spec(
            crate::json::json_de_texto(corpo@)->0,
            "tool_name"@,
        ) is Some),
        r matches Ok(p) ==> texto_do_campo_spec(
            crate::json::json_de_texto(corpo@)->0,
            "tool_name"@,
        ) == Some(p.ferramenta@),
{
    if crate::texto::em_branco(token) {
        return Err(Erro::invalido("sem token"));
    }
    let v = match crate::json::analisar_json(corpo) {
        Some(v) => v,
        None => return Err(Erro::invalido("corpo não é json")),
    };
    PedidoDoHook::do_json(&v)
}

} // verus!

verus! {

// ------------------------------------------------------------- pendências

#[verifier::external_type_specification]
#[verifier::external_body]
#[verifier::reject_recursive_types(T)]
pub struct ExRemetente<T>(std::sync::mpsc::Sender<T>);

#[verifier::external_type_specification]
#[verifier::external_body]
#[verifier::reject_recursive_types(T)]
pub struct ExReceptor<T>(std::sync::mpsc::Receiver<T>);

/// Um canal novo (`std::sync::mpsc::channel`).
#[verifier::external_body]
fn canal() -> (std::sync::mpsc::Sender<Decisao>, std::sync::mpsc::Receiver<Decisao>) {
    std::sync::mpsc::channel()
}

/// Manda a decisão pelo canal (`Sender::send`). Dá certo só se alguém ainda
/// segura a outra ponta, o que depende de quem espera: nada se promete.
#[verifier::external_body]
fn mandar(tx: &std::sync::mpsc::Sender<Decisao>, decisao: Decisao) -> bool {
    tx.send(decisao).is_ok()
}

/// Os pedidos parados esperando gente: para cada card aberto, o canal por
/// onde a decisão chega a quem espera.
pub struct Aprovacoes {
    pendentes: Vec<(String, std::sync::mpsc::Sender<Decisao>)>,
    enviadas: Ghost<Seq<(Seq<char>, Decisao)>>,
}

impl Aprovacoes {
    /// Os cards esperando decisão, na ordem em que foram abertos.
    pub closed spec fn esperando(&self) -> Seq<Seq<char>> {
        self.pendentes@.map_values(|p: (String, std::sync::mpsc::Sender<Decisao>)| p.0@)
    }

    /// Um card aparece uma vez só.
    #[verifier::type_invariant]
    closed spec fn sem_repeticao(&self) -> bool {
        self.esperando().no_duplicates()
    }

    /// Os cards esperando, como conjunto.
    pub closed spec fn abertos(&self) -> Set<Seq<char>> {
        self.esperando().to_set()
    }

    /// As decisões entregues, na ordem: cada card respondido com a decisão
    /// que foi posta no canal de quem o esperava.
    pub closed spec fn enviadas(&self) -> Seq<(Seq<char>, Decisao)> {
        self.enviadas@
    }

    pub fn nova() -> (r: Aprovacoes)
        ensures
            r.abertos() == Set::<Seq<char>>::empty(),
            r.enviadas() == Seq::<(Seq<char>, Decisao)>::empty(),
    {
        let r = Aprovacoes { pendentes: Vec::new(), enviadas: Ghost(Seq::empty()) };
        assert(r.esperando() =~= Seq::<Seq<char>>::empty());
        r
    }

    fn posicao(&self, id: &str) -> (r: Option<usize>)
        ensures
            match r {
                Some(i) => i < self.esperando().len() && self.esperando()[i as int] == id@,
                None => !self.esperando().contains(id@),
            },
    {
        let mut i: usize = 0;
        while i < self.pendentes.len()
            invariant
                i <= self.pendentes@.len(),
                forall|k: int| 0 <= k < i ==> self.esperando()[k] != id@,
            decreases self.pendentes@.len() - i,
        {
            if iguais(self.pendentes[i].0.as_str(), id) {
                return Some(i);
            }
            i = i + 1;
        }
        None
    }

    /// Tira o card da lista e devolve o canal dele, se estava lá.
    fn tirar(&mut self, id: &str) -> (r: Option<std::sync::mpsc::Sender<Decisao>>)
        ensures
            final(self).abertos() == old(self).abertos().remove(id@),
            final(self).enviadas() == old(self).enviadas(),
            r is Some <==> old(self).abertos().contains(id@),
    {
        proof {
            use_type_invariant(&*self);
        }
        match self.posicao(id) {
            None => {
                proof {
                    assert(self.abertos().remove(id@) =~= self.abertos());
                }
                None
            },
            Some(i) => {
                let ghost antes = self.esperando();
                let mut lista: Vec<(String, std::sync::mpsc::Sender<Decisao>)> = Vec::new();
                std::mem::swap(&mut lista, &mut self.pendentes);
                let (_, tx) = lista.remove(i);
                proof {
                    assert(lista@.map_values(
                        |p: (String, std::sync::mpsc::Sender<Decisao>)| p.0@,
                    ) =~= antes.remove(i as int));
                    assert(antes.to_set().contains(id@));
                    lema_tirar_sem_repeticao(antes, i as int);
                }
                self.pendentes = lista;
                Some(tx)
            },
        }
    }

    /// Abre a espera de um card. Um card reaberto troca de canal.
    pub fn registrar(&mut self, tool_call_id: &str) -> (r: std::sync::mpsc::Receiver<Decisao>)
        ensures
            final(self).abertos() == old(self).abertos().insert(tool_call_id@),
            final(self).enviadas() == old(self).enviadas(),
    {
        let _ = self.tirar(tool_call_id);
        let (tx, rx) = canal();
        let ghost antes = self.esperando();
        proof {
            use_type_invariant(&*self);
            assert(!antes.to_set().contains(tool_call_id@));
        }
        let mut lista: Vec<(String, std::sync::mpsc::Sender<Decisao>)> = Vec::new();
        std::mem::swap(&mut lista, &mut self.pendentes);
        lista.push((tool_call_id.to_string(), tx));
        proof {
            assert(lista@.map_values(|p: (String, std::sync::mpsc::Sender<Decisao>)| p.0@)
                =~= antes.push(tool_call_id@));
            lema_por_sem_repeticao(antes, tool_call_id@);
        }
        self.pendentes = lista;
        rx
    }

    /// Esquece um card sem responder (o prazo passou, ou quem esperava sumiu).
    pub fn esquecer(&mut self, tool_call_id: &str)
        ensures
            final(self).abertos() == old(self).abertos().remove(tool_call_id@),
            final(self).enviadas() == old(self).enviadas(),
    {
        let _ = self.tirar(tool_call_id);
    }

    /// Entrega a decisão a quem está esperando. `false` quer dizer que
    /// ninguém esperava — o pedido expirou, já foi decidido ou nunca existiu.
    /// Depois de respondido, o card sai da lista: decidir de novo o mesmo card
    /// não chega a ninguém.
    pub fn responder(&mut self, tool_call_id: &str, decisao: Decisao) -> (r: bool)
        ensures
            final(self).abertos() == old(self).abertos().remove(tool_call_id@),
            !final(self).abertos().contains(tool_call_id@),
            r ==> old(self).abertos().contains(tool_call_id@),
            old(self).abertos().contains(tool_call_id@) ==> final(self).enviadas() == old(
                self,
            ).enviadas().push((tool_call_id@, decisao)),
            !old(self).abertos().contains(tool_call_id@) ==> final(self).enviadas() == old(
                self,
            ).enviadas(),
    {
        match self.tirar(tool_call_id) {
            Some(tx) => {
                let ok = mandar(&tx, decisao);
                proof {
                    use_type_invariant(&*self);
                    self.enviadas = Ghost(self.enviadas@.push((tool_call_id@, decisao)));
                }
                ok
            },
            None => false,
        }
    }

    /// Nega, sem barulho, todos os cards abertos de uma sessão (os de id
    /// `<sessão>:...`): o turno dela foi cancelado, e quem esperava a decisão
    /// não deve ficar pendurado. Devolve os cards negados, na ordem em que
    /// foram abertos.
    pub fn negar_da_sessao(&mut self, session_id: &str) -> (r: Vec<String>)
        ensures
            r@.map_values(|x: String| x@) == da_sessao(old(self).esperando(), session_id@),
            forall|x: Seq<char>|
                #[trigger] final(self).abertos().contains(x) <==> old(self).abertos().contains(x)
                    && !e_da_sessao(x, session_id@),
            final(self).enviadas() == old(self).enviadas() + da_sessao(
                old(self).esperando(),
                session_id@,
            ).map_values(|x: Seq<char>| (x, Decisao::Negada)),
    {
        proof {
            use_type_invariant(&*self);
        }
        let ghost ids = self.esperando();
        let ghost log0 = self.enviadas();
        let mut prefixo = chars_de(session_id);
        anexar(&mut prefixo, ":");
        let mut negados: Vec<String> = Vec::new();
        let mut i: usize = 0;
        while i < self.pendentes.len()
            invariant
                i <= self.pendentes@.len(),
                ids == self.esperando(),
                ids.no_duplicates(),
                prefixo@ == session_id@ + ":"@,
                negados@.map_values(|x: String| x@) == da_sessao(ids.take(i as int), session_id@),
                self.enviadas() == log0 + da_sessao(ids.take(i as int), session_id@).map_values(
                    |x: Seq<char>| (x, Decisao::Negada),
                ),
            decreases self.pendentes@.len() - i,
        {
            let ghost antes = negados@.map_values(|x: String| x@);
            proof {
                assert(ids.take(i + 1).drop_last() =~= ids.take(i as int));
                assert(ids.take(i + 1).last() == ids[i as int]);
                assert(ids[i as int] == self.pendentes@[i as int].0@);
            }
            let id = chars_de(self.pendentes[i].0.as_str());
            if comeca_com_chars(&id, &prefixo) {
                let _ = mandar(&self.pendentes[i].1, Decisao::Negada);
                negados.push(self.pendentes[i].0.clone());
                proof {
                    let f = |x: Seq<char>| (x, Decisao::Negada);
                    assert(negados@.map_values(|x: String| x@) =~= antes.push(ids[i as int]));
                    assert(antes.push(ids[i as int]).map_values(f) =~= antes.map_values(f).push(
                        f(ids[i as int]),
                    ));
                    self.enviadas = Ghost(self.enviadas@.push(f(ids[i as int])));
                    assert(self.enviadas() =~= log0 + antes.push(ids[i as int]).map_values(f));
                }
            }
            i = i + 1;
        }
        proof {
            assert(ids.take(ids.len() as int) =~= ids);
        }
        let ghost r_ids = negados@.map_values(|x: String| x@);
        let ghost abertos0 = self.abertos();
        let ghost log1 = self.enviadas();
        proof {
            lema_da_sessao(ids, session_id@);
        }
        let mut j: usize = 0;
        while j < negados.len()
            invariant
                j <= negados@.len(),
                r_ids == negados@.map_values(|x: String| x@),
                r_ids == da_sessao(ids, session_id@),
                r_ids.no_duplicates(),
                forall|x: Seq<char>| r_ids.contains(x) ==> abertos0.contains(x),
                forall|x: Seq<char>|
                    #[trigger] self.abertos().contains(x) <==> abertos0.contains(x)
                        && !r_ids.take(j as int).contains(x),
                self.enviadas() == log1,
            decreases negados@.len() - j,
        {
            proof {
                assert(r_ids[j as int] == negados@[j as int]@);
                assert forall|x: Seq<char>| r_ids.take(j + 1).contains(x) <==> r_ids.take(
                    j as int,
                ).contains(x) || x == r_ids[j as int] by {
                    if r_ids.take(j + 1).contains(x) {
                        let k = choose|k: int| 0 <= k < j + 1 && #[trigger] r_ids.take(j + 1)[k] == x;
                        if k < j {
                            assert(r_ids.take(j as int)[k] == x);
                        }
                    }
                    if r_ids.take(j as int).contains(x) {
                        let k = choose|k: int| 0 <= k < j && #[trigger] r_ids.take(j as int)[k] == x;
                        assert(r_ids.take(j + 1)[k] == x);
                    }
                    if x == r_ids[j as int] {
                        assert(r_ids.take(j + 1)[j as int] == x);
                    }
                }
            }
            let _ = self.tirar(negados[j].as_str());
            j = j + 1;
        }
        proof {
            assert(r_ids.take(r_ids.len() as int) =~= r_ids);
        }
        negados
    }

    /// Quantos cards esperam decisão.
    pub fn quantas_esperando(&self) -> (r: usize)
        ensures
            r == self.abertos().len(),
    {
        proof {
            use_type_invariant(self);
            self.esperando().unique_seq_to_set();
        }
        self.pendentes.len()
    }
}

/// O card é de um turno da sessão: o id dele começa com `<sessão>:`.
pub open spec fn e_da_sessao(id: Seq<char>, session_id: Seq<char>) -> bool {
    comeca_com(id, session_id + ":"@)
}

/// Os cards de uma sessão, na ordem da lista.
pub open spec fn da_sessao(ids: Seq<Seq<char>>, session_id: Seq<char>) -> Seq<Seq<char>>
    decreases ids.len(),
{
    if ids.len() == 0 {
        Seq::empty()
    } else {
        let resto = da_sessao(ids.drop_last(), session_id);
        if e_da_sessao(ids.last(), session_id) {
            resto.push(ids.last())
        } else {
            resto
        }
    }
}

/// Os cards de uma sessão são os da lista com o prefixo dela, e sem
/// repetição quando a lista não repete.
proof fn lema_da_sessao(ids: Seq<Seq<char>>, session_id: Seq<char>)
    ensures
        forall|x: Seq<char>|
            #[trigger] da_sessao(ids, session_id).contains(x) <==> ids.contains(x) && e_da_sessao(x, session_id),
        ids.no_duplicates() ==> da_sessao(ids, session_id).no_duplicates(),
    decreases ids.len(),
{
    if ids.len() > 0 {
        let ini = ids.drop_last();
        lema_da_sessao(ini, session_id);
        let resto = da_sessao(ini, session_id);
        assert forall|x: Seq<char>| ids.contains(x) <==> ini.contains(x) || x == ids.last() by {
            if ids.contains(x) {
                let k = choose|k: int| 0 <= k < ids.len() && ids[k] == x;
                if k < ids.len() - 1 {
                    assert(ini[k] == x);
                }
            }
            if ini.contains(x) {
                let k = choose|k: int| 0 <= k < ini.len() && ini[k] == x;
                assert(ids[k] == x);
            }
        }
        if e_da_sessao(ids.last(), session_id) {
            assert forall|x: Seq<char>| resto.push(ids.last()).contains(x) <==> resto.contains(x) || x
                == ids.last() by {
                if resto.push(ids.last()).contains(x) {
                    let k = choose|k: int| 0 <= k < resto.len() + 1 && resto.push(ids.last())[k] == x;
                    if k < resto.len() {
                        assert(resto[k] == x);
                    }
                }
                if resto.contains(x) {
                    let k = choose|k: int| 0 <= k < resto.len() && resto[k] == x;
                    assert(resto.push(ids.last())[k] == x);
                }
                if x == ids.last() {
                    assert(resto.push(ids.last())[resto.len() as int] == x);
                }
            }
            if ids.no_duplicates() {
                assert(ini.no_duplicates());
                assert(!ini.contains(ids.last())) by {
                    if ini.contains(ids.last()) {
                        let k = choose|k: int| 0 <= k < ini.len() && ini[k] == ids.last();
                        assert(ids[k] == ids[ids.len() - 1]);
                    }
                }
                let r = resto.push(ids.last());
                assert forall|a: int, b: int| 0 <= a < b < r.len() implies r[a] != r[b] by {
                    if b == resto.len() {
                        assert(r[a] == resto[a]);
                        assert(resto.contains(resto[a]));
                    }
                }
            }
            assert forall|x: Seq<char>| #[trigger] da_sessao(ids, session_id).contains(x) <==> ids.contains(x)
                && e_da_sessao(x, session_id) by {
                assert(da_sessao(ids, session_id) == resto.push(ids.last()));
                if resto.contains(x) {
                    assert(da_sessao(ini, session_id).contains(x));
                }
            }
        } else {
            if ids.no_duplicates() {
                assert(ini.no_duplicates());
            }
            assert forall|x: Seq<char>| #[trigger] da_sessao(ids, session_id).contains(x) <==> ids.contains(x)
                && e_da_sessao(x, session_id) by {
                assert(da_sessao(ids, session_id) == resto);
                if resto.contains(x) {
                    assert(da_sessao(ini, session_id).contains(x));
                }
                if ini.contains(x) && e_da_sessao(x, session_id) {
                    assert(da_sessao(ini, session_id).contains(x));
                }
            }
        }
    } else {
        assert forall|x: Seq<char>| #[trigger] da_sessao(ids, session_id).contains(x) <==> ids.contains(x)
            && e_da_sessao(x, session_id) by {
            assert(da_sessao(ids, session_id) =~= Seq::<Seq<char>>::empty());
            if ids.contains(x) {
                let k = choose|k: int| 0 <= k < ids.len() && ids[k] == x;
            }
        }
    }
}

proof fn lema_tirar_sem_repeticao(s: Seq<Seq<char>>, i: int)
    requires
        s.no_duplicates(),
        0 <= i < s.len(),
    ensures
        s.remove(i).no_duplicates(),
        s.remove(i).to_set() == s.to_set().remove(s[i]),
{
    let r = s.remove(i);
    assert forall|a: int, b: int| 0 <= a < b < r.len() implies r[a] != r[b] by {
        let a2 = if a < i { a } else { a + 1 };
        let b2 = if b < i { b } else { b + 1 };
        assert(r[a] == s[a2] && r[b] == s[b2]);
    }
    assert forall|x: Seq<char>| r.to_set().contains(x) <==> s.to_set().remove(s[i]).contains(x) by {
        if r.contains(x) {
            let k = choose|k: int| 0 <= k < r.len() && r[k] == x;
            let k2 = if k < i { k } else { k + 1 };
            assert(s[k2] == x);
            assert(k2 != i);
        }
        if s.contains(x) && x != s[i] {
            let k = choose|k: int| 0 <= k < s.len() && s[k] == x;
            let k2 = if k < i { k } else { k - 1 };
            assert(r[k2] == x);
        }
    }
    assert(r.to_set() =~= s.to_set().remove(s[i]));
}

proof fn lema_por_sem_repeticao(s: Seq<Seq<char>>, x: Seq<char>)
    requires
        s.no_duplicates(),
        !s.to_set().contains(x),
    ensures
        s.push(x).no_duplicates(),
        s.push(x).to_set() == s.to_set().insert(x),
{
    let r = s.push(x);
    assert forall|a: int, b: int| 0 <= a < b < r.len() implies r[a] != r[b] by {
        if b == s.len() {
            assert(r[a] == s[a]);
            assert(s.contains(s[a]));
        }
    }
    assert forall|y: Seq<char>| r.to_set().contains(y) <==> s.to_set().insert(x).contains(y) by {
        if r.contains(y) {
            let k = choose|k: int| 0 <= k < r.len() && r[k] == y;
            if k < s.len() {
                assert(s[k] == y);
            }
        }
        if s.contains(y) {
            let k = choose|k: int| 0 <= k < s.len() && s[k] == y;
            assert(r[k] == y);
        }
        if y == x {
            assert(r[s.len() as int] == x);
        }
    }
    assert(r.to_set() =~= s.to_set().insert(x));
}

// ---------------------------------------------------------------- servidor

/// Onde o barramento atende e quem espera decisão nele: sempre em
/// `127.0.0.1`, numa porta que o sistema escolhe. Porta fixa daria conflito
/// entre duas cópias do app e deixaria um alvo previsível. Subir o servidor é
/// da borda.
pub struct Barramento {
    porta: u16,
    aprovacoes: Aprovacoes,
}

/// A base das URLs do barramento.
pub open spec fn url_base_spec(porta: u16) -> Seq<char> {
    "http://127.0.0.1:"@ + decimal(porta as nat)
}

impl Barramento {
    pub closed spec fn porta_spec(&self) -> u16 {
        self.porta
    }

    pub closed spec fn aprovacoes_spec(&self) -> Aprovacoes {
        self.aprovacoes
    }

    /// O barramento que subiu na porta dada, com as esperas que atende.
    pub fn na_porta(porta: u16, aprovacoes: Aprovacoes) -> (r: Barramento)
        ensures
            r.porta_spec() == porta,
            r.aprovacoes_spec() == aprovacoes,
    {
        Barramento { porta, aprovacoes }
    }

    /// As esperas por decisão que este barramento atende.
    pub fn aprovacoes(&self) -> (r: &Aprovacoes)
        ensures
            *r == self.aprovacoes_spec(),
    {
        &self.aprovacoes
    }

    /// As esperas, para abrir, responder ou esquecer um card.
    pub fn aprovacoes_mut(&mut self) -> (r: &mut Aprovacoes)
        ensures
            *r == old(self).aprovacoes_spec(),
            final(self).aprovacoes_spec() == *final(r),
            final(self).porta_spec() == old(self).porta_spec(),
    {
        &mut self.aprovacoes
    }

    pub fn porta(&self) -> (r: u16)
        ensures
            r == self.porta_spec(),
    {
        self.porta
    }

    /// `http://127.0.0.1:<porta>`: o que o orquestrador passa aos agentes.
    pub fn url_base(&self) -> (r: String)
        ensures
            r@ == url_base_spec(self.porta_spec()),
    {
        let mut v: Vec<char> = Vec::new();
        anexar(&mut v, "http://127.0.0.1:");
        let n = escrever_decimal(self.porta as u64);
        anexar_chars(&mut v, &n);
        string_de(&v)
    }

    /// Para onde o hook de aprovação manda os pedidos.
    pub fn url_de_aprovacao(&self) -> (r: String)
        ensures
            r@ == url_base_spec(self.porta_spec()) + "/aprovacao"@,
    {
        let mut v = chars_de(self.url_base().as_str());
        anexar(&mut v, "/aprovacao");
        string_de(&v)
    }
}

/// O que fazer com um pedido do hook já lido, antes de qualquer clique.
/// `sessao` é o que a borda achou para o token: o id da sessão e os
/// servidores de fora do papel dela, ou `None` quando o token não é de
/// sessão nenhuma; `regras` são as ferramentas que a pessoa liberou nesta
/// pasta com "não perguntar de novo".
///
/// Token que não resolve é `nao_encontrado` de "token", sem o valor dele:
/// quem mandou um token ruim não descobre nada. Senão devolve o id da
/// chamada (`<sessão>:<id do pedido>`) e o primeiro passo.
pub fn avaliar_pedido(
    pedido: &PedidoDoHook,
    sessao: Option<(String, Vec<ServidorMcp>)>,
    regras: &Vec<String>,
) -> (r: Resultado<(String, Passo)>)
    ensures
        sessao is None ==> (r matches Err(Erro::NaoEncontrado { tipo, id }) && tipo@ == "sessão"@
            && id@ == "token"@),
        sessao matches Some(s) ==> (r matches Ok(par) && par.0@ == s.0@ + ":"@ + pedido.id_externo@
            && passo_ok(
            par.1,
            pedido.ferramenta@,
            s.1@,
            regras@.map_values(|x: String| x@).contains(pedido.ferramenta@),
        )),
{
    match sessao {
        None => Err(Erro::nao_encontrado("sessão", "token")),
        Some((session_id, servidores)) => {
            let ha_regra = crate::papeis::lista_contem(regras, pedido.ferramenta.as_str());
            let id = id_da_chamada(session_id.as_str(), pedido.id_externo.as_str());
            let passo = primeiro_passo(pedido.ferramenta.as_str(), servidores.as_slice(), ha_regra);
            Ok((id, passo))
        },
    }
}

/// O card de escrever numa nota diz "acrescentar em" exatamente quando o
/// `modo` pedido é `acrescentar`, que é também quando a chamada lida
/// acrescenta: o card nunca anuncia sobrescrever o que só vai crescer, nem o
/// contrário.
pub proof fn lei_o_card_diz_se_acrescenta(j: ValorJson, c: crate::ferramentas::Chamada)
    ensures
        comeca_com(descricao_spec(nome_completo_spec("escrever_nota"@), j).1, "acrescentar em"@)
            <==> campo_spec(j, "modo"@) == Some(ValorJson::Texto("acrescentar"@)),
        crate::ferramentas::chamada_ok(c, "escrever_nota"@, j) ==> (comeca_com(
            descricao_spec(nome_completo_spec("escrever_nota"@), j).1,
            "acrescentar em"@,
        ) <==> (c matches crate::ferramentas::Chamada::EscreverNota { acrescentar, .. } && acrescentar)),
{
    let nc = nome_completo_spec("escrever_nota"@);
    reveal_strlit("mcp__mutirao__");
    reveal_strlit("escrever_nota");
    reveal_strlit("Write");
    reveal_strlit("Edit");
    reveal_strlit("NotebookEdit");
    reveal_strlit("Bash");
    reveal_strlit("acrescentar");
    reveal_strlit("acrescentar em");
    reveal_strlit("gravar");
    reveal_strlit("enviar_para");
    reveal_strlit("avisar");
    reveal_strlit("listar_nos");
    reveal_strlit("ler_nota");
    assert("escrever_nota"@.len() == 13);
    assert("enviar_para"@.len() == 11 && "avisar"@.len() == 6);
    assert("listar_nos"@.len() == 10 && "ler_nota"@.len() == 8);
    assert(nc.len() == 27);
    let d = descricao_spec(nc, j).1;
    let resto = " · "@ + linhas_e_tamanho(campo_txt(j, "conteudo"@));
    let pedido = campo_spec(j, "modo"@) == Some(ValorJson::Texto("acrescentar"@));
    assert(campo_txt(j, "modo"@) == "acrescentar"@ <==> pedido) by {
        if campo_txt(j, "modo"@) == "acrescentar"@ {
            assert(campo_txt(j, "modo"@).len() == 11);
        }
    }
    if pedido {
        assert(d == "acrescentar em"@ + resto);
        assert(d.take(14) =~= "acrescentar em"@);
    } else {
        assert(d == "gravar"@ + resto);
        if d.len() >= 14 {
            assert(d.take(14)[0] == 'g');
            assert("acrescentar em"@[0] == 'a');
        }
    }
}

} // verus!
