//! A tradução do stream da CLI do agente.
//!
//! A CLI roda em modo headless e escreve JSONL; cada linha vira zero ou mais
//! [`EventoAgente`]. Linha que não interessa vira nada, nunca erro: a CLI
//! acrescenta tipos de evento a cada versão, e um adaptador que quebra ao ver
//! um evento novo quebraria no dia da atualização.
//!
//! O custo vem do `total_cost_usd` da própria CLI, e não de tabela nenhuma:
//! o evento carrega o número como a CLI o escreveu.

use crate::json::{
    analisar_json, bytes_utf8, campo, campo_spec, e_nulo, como_bool, como_i64,
    como_lista, como_str, conteudo_json, json_bool, json_de_texto, json_nulo, json_objeto,
    json_objeto_vazio, json_texto, json_u64, mapa_de, par, serializar, texto_do_campo,
    texto_json, texto_ou_vazio, texto_ou_vazio_de, textos_de, textos_do_campo, ValorJson,
};
use crate::texto::{
    anexar, aparado, chars_de, em_branco, iguais, juntar, juntar_chars, primeiros, string_de,
};
use crate::barramento::{matcher_do_hook, partes_do_matcher, CABECALHO_TOKEN, PRAZO_APROVACAO_S};
use crate::ferramentas::nome_completo_spec;
use crate::json::{lista_de_um, objeto_com, objeto_de};
use crate::modelo::ServidorMcp;
use crate::texto::{decimal, escrever_decimal, linhas, partir_linhas};
use crate::modelo::{Autonomia, Papel};
use crate::papeis::{ferramentas_do_papel, ferramentas_spec, nativas_do_papel, nativas_spec};
use vstd::prelude::*;

verus! {

broadcast use vstd::string::group_string_axioms;

/// Consumo de um turno. O custo é o `total_cost_usd` que a CLI reportou,
/// como valor JSON; `None` quando ela não reportou nenhum.
#[derive(Debug, Clone)]
pub struct Uso {
    pub tokens_entrada: i64,
    pub tokens_saida: i64,
    pub custo_usd: Option<serde_json::Value>,
}

impl Default for Uso {
    /// Nada consumido, custo não reportado.
    fn default() -> (r: Uso)
        ensures
            r.tokens_entrada == 0,
            r.tokens_saida == 0,
            r.custo_usd is None,
    {
        Uso { tokens_entrada: 0, tokens_saida: 0, custo_usd: None }
    }
}

impl Uso {
    pub fn tokens(&self) -> (r: i64)
        requires
            i64::MIN <= self.tokens_entrada + self.tokens_saida <= i64::MAX,
        ensures
            r == self.tokens_entrada + self.tokens_saida,
    {
        self.tokens_entrada + self.tokens_saida
    }
}

/// O que um adaptador reporta.
#[derive(Debug, Clone)]
pub enum EventoAgente {
    SessaoIniciada { id_externo: String, modelo: String, ferramentas: Vec<String> },
    TextoParcial { delta: String },
    Raciocinando { resumo: String },
    FerramentaPedida { id: String, nome: String, argumentos: serde_json::Value },
    FerramentaConcluida {
        id: String,
        resultado: Option<serde_json::Value>,
        erro: Option<String>,
    },
    /// O sino: fim do turno, com o texto final e o consumo.
    TurnoConcluido { texto_final: String, uso: Uso },
    PrecisaHumano { pergunta: String },
    Erro { mensagem: String, recuperavel: bool },
}

impl EventoAgente {
    /// Eventos que encerram o turno.
    pub fn encerra_turno(&self) -> (r: bool)
        ensures
            r == (*self is TurnoConcluido || *self is Erro),
    {
        match self {
            EventoAgente::TurnoConcluido { .. } | EventoAgente::Erro { .. } => true,
            _ => false,
        }
    }
}

/// O que a tradução lembra entre uma linha e a seguinte.
pub struct Traducao {
    /// `tool_use_id` e nome de cada ferramenta pedida, na ordem.
    pub ferramentas: Vec<(String, String)>,
    /// Id de retomada, assim que o `system/init` o anuncia.
    pub id_externo: Option<String>,
    /// O turno terminou com sino (`result`).
    pub concluiu: bool,
    /// O `result` de erro veio sem texto nenhum; a frase está no stderr.
    pub erro_sem_texto: bool,
}

impl Default for Traducao {
    /// Uma tradução que ainda não viu linha nenhuma.
    fn default() -> (r: Traducao)
        ensures
            r.id_externo is None,
            !r.concluiu,
            !r.erro_sem_texto,
            r.ferramentas@.len() == 0,
    {
        Traducao { ferramentas: Vec::new(), id_externo: None, concluiu: false, erro_sem_texto: false }
    }
}

impl Traducao {
    /// As ferramentas pedidas até aqui: `(id, nome)`.
    pub open spec fn ferramentas_vistas(&self) -> Seq<(Seq<char>, Seq<char>)> {
        self.ferramentas@.map_values(|p: (String, String)| (p.0@, p.1@))
    }

    /// O nome da ferramenta de um `tool_use_id`, o último anunciado.
    pub fn nome_da_ferramenta(&self, id: &str) -> (r: Option<String>)
        ensures
            match r {
                Some(n) => exists|i: int|
                    0 <= i < self.ferramentas_vistas().len()
                        && #[trigger] self.ferramentas_vistas()[i] == (id@, n@)
                        && forall|j: int|
                        i < j < self.ferramentas_vistas().len() ==> (#[trigger] self.ferramentas_vistas()[j]).0 != id@,
                None => forall|j: int|
                    0 <= j < self.ferramentas_vistas().len() ==> (#[trigger] self.ferramentas_vistas()[j]).0 != id@,
            },
    {
        let mut i: usize = self.ferramentas.len();
        while i > 0
            invariant
                i <= self.ferramentas@.len(),
                forall|j: int|
                    i <= j < self.ferramentas_vistas().len() ==> (#[trigger] self.ferramentas_vistas()[j]).0 != id@,
            decreases i,
        {
            i = i - 1;
            if iguais(self.ferramentas[i].0.as_str(), id) {
                assert(self.ferramentas_vistas()[i as int] == (
                    self.ferramentas@[i as int].0@,
                    self.ferramentas@[i as int].1@,
                ));
                return Some(self.ferramentas[i].1.clone());
            }
        }
        None
    }
}

// ------------------------------------------------------------- especificação

/// O valor de uma chave, ou `Nulo` quando falta.
pub open spec fn campo_ou_nulo(j: ValorJson, k: Seq<char>) -> ValorJson {
    match campo_spec(j, k) {
        Some(v) => v,
        None => ValorJson::Nulo,
    }
}

/// Os blocos de `message.content`.
pub open spec fn blocos_spec(j: ValorJson) -> Seq<ValorJson> {
    match campo_spec(campo_ou_nulo(j, "message"@), "content"@) {
        Some(ValorJson::Lista(l)) => l,
        _ => Seq::empty(),
    }
}

/// Os blocos de um tipo, na ordem.
pub open spec fn blocos_do_tipo(bs: Seq<ValorJson>, tipo: Seq<char>) -> Seq<ValorJson>
    decreases bs.len(),
{
    if bs.len() == 0 {
        Seq::empty()
    } else {
        let resto = blocos_do_tipo(bs.drop_last(), tipo);
        if campo_spec(bs.last(), "type"@) == Some(ValorJson::Texto(tipo)) {
            resto.push(bs.last())
        } else {
            resto
        }
    }
}

/// Os `text` de uma lista de blocos, pulando os que não têm.
pub open spec fn textos_dos_blocos(l: Seq<ValorJson>) -> Seq<Seq<char>>
    decreases l.len(),
{
    if l.len() == 0 {
        Seq::empty()
    } else {
        let resto = textos_dos_blocos(l.drop_last());
        match campo_spec(l.last(), "text"@) {
            Some(ValorJson::Texto(s)) => resto.push(s),
            _ => resto,
        }
    }
}

/// Conteúdo de resultado de ferramenta como texto legível.
pub open spec fn legivel(v: ValorJson) -> Seq<char> {
    match v {
        ValorJson::Texto(s) => s,
        ValorJson::Lista(bs) => juntar(textos_dos_blocos(bs), "\n"@),
        ValorJson::Nulo => Seq::empty(),
        outro => texto_json(outro),
    }
}

/// Resultado de ferramenta encolhido para caber num card: até 2000
/// caracteres; cortado, leva `truncado` e o tamanho em bytes.
pub open spec fn resumo_spec(v: ValorJson) -> ValorJson {
    let t = legivel(v);
    if t.len() <= 2000 {
        ValorJson::Objeto(mapa_de(seq![("conteudo"@, ValorJson::Texto(t))]))
    } else {
        ValorJson::Objeto(
            mapa_de(
                seq![
                    ("conteudo"@, ValorJson::Texto(t.take(2000))),
                    ("truncado"@, ValorJson::Booleano(true)),
                    ("bytes"@, ValorJson::Inteiro(((bytes_utf8(t) as usize) as u64) as int)),
                ],
            ),
        )
    }
}

/// Um número de tokens do `usage`, zero quando falta.
pub open spec fn tokens_de(j: ValorJson, k: Seq<char>) -> i64 {
    match campo_spec(campo_ou_nulo(j, "usage"@), k) {
        Some(ValorJson::Inteiro(n)) => if i64::MIN <= n <= i64::MAX {
            n as i64
        } else {
            0
        },
        _ => 0,
    }
}

/// O consumo que a linha `result` reporta.
pub open spec fn uso_ok(u: Uso, j: ValorJson) -> bool {
    &&& u.tokens_entrada == tokens_de(j, "input_tokens"@).wrapping_add(
        tokens_de(j, "cache_creation_input_tokens"@),
    ).wrapping_add(tokens_de(j, "cache_read_input_tokens"@))
    &&& u.tokens_saida == tokens_de(j, "output_tokens"@)
    &&& match campo_spec(j, "total_cost_usd"@) {
        Some(c) => u.custo_usd matches Some(x) && conteudo_json(x) == c,
        None => u.custo_usd is None,
    }
}

/// O evento de uma ferramenta pedida.
pub open spec fn pedido_ok(e: EventoAgente, b: ValorJson) -> bool {
    e matches EventoAgente::FerramentaPedida { id, nome, argumentos } && id@ == texto_ou_vazio(
        b,
        "id"@,
    ) && nome@ == texto_ou_vazio(b, "name"@) && conteudo_json(argumentos) == match campo_spec(
        b,
        "input"@,
    ) {
        Some(a) => a,
        None => ValorJson::Objeto(Map::empty()),
    }
}

/// O evento de uma ferramenta concluída.
pub open spec fn resultado_ok(e: EventoAgente, b: ValorJson) -> bool {
    let conteudo = campo_ou_nulo(b, "content"@);
    let falhou = campo_spec(b, "is_error"@) == Some(ValorJson::Booleano(true));
    e matches EventoAgente::FerramentaConcluida { id, resultado, erro } && id@ == texto_ou_vazio(
        b,
        "tool_use_id"@,
    ) && if falhou {
        resultado is None && (erro matches Some(m) && m@ == legivel(conteudo))
    } else {
        erro is None && (resultado matches Some(v) && conteudo_json(v) == resumo_spec(conteudo))
    }
}

/// A mensagem do erro de um `result`: o texto, ou uma frase com o subtipo
/// quando ele veio em branco.
pub open spec fn mensagem_de_erro(texto_final: Seq<char>, subtipo: Seq<char>) -> Seq<char> {
    if aparado(texto_final).len() == 0 {
        "O agente terminou com erro ("@ + subtipo + ")."@
    } else {
        texto_final
    }
}

/// O que uma linha já lida como JSON produz, e como a tradução muda.
pub open spec fn traducao_ok(j: ValorJson, antes: Traducao, depois: Traducao, r: Seq<EventoAgente>) -> bool {
    let tipo = texto_ou_vazio(j, "type"@);
    let subtipo = texto_ou_vazio(j, "subtype"@);
    if tipo == "system"@ && subtipo == "init"@ {
        let id = texto_ou_vazio(j, "session_id"@);
        &&& r.len() == 1
        &&& r[0] matches EventoAgente::SessaoIniciada { id_externo, modelo, ferramentas }
            && id_externo@ == id && modelo@ == texto_ou_vazio(j, "model"@)
            && ferramentas@.map_values(|s: String| s@) == match campo_spec(j, "tools"@) {
            Some(ValorJson::Lista(l)) => textos_de(l),
            _ => Seq::empty(),
        }
        &&& depois.id_externo matches Some(x) && x@ == id
        &&& depois.concluiu == antes.concluiu
        &&& depois.erro_sem_texto == antes.erro_sem_texto
        &&& depois.ferramentas_vistas() == antes.ferramentas_vistas()
    } else if tipo == "system"@ && subtipo == "task_summary"@ {
        &&& match campo_spec(j, "detail"@) {
            Some(ValorJson::Texto(d)) => if aparado(d).len() != 0 {
                r.len() == 1 && (r[0] matches EventoAgente::Raciocinando { resumo } && resumo@ == d)
            } else {
                r.len() == 0
            },
            _ => r.len() == 0,
        }
        &&& depois == antes
    } else if tipo == "stream_event"@ {
        let delta = campo_ou_nulo(campo_ou_nulo(j, "event"@), "delta"@);
        &&& if campo_spec(delta, "type"@) == Some(ValorJson::Texto("text_delta"@)) {
            match campo_spec(delta, "text"@) {
                Some(ValorJson::Texto(s)) => if s.len() != 0 {
                    r.len() == 1 && (r[0] matches EventoAgente::TextoParcial { delta: d } && d@ == s)
                } else {
                    r.len() == 0
                },
                _ => r.len() == 0,
            }
        } else {
            r.len() == 0
        }
        &&& depois == antes
    } else if tipo == "assistant"@ {
        let pedidos = blocos_do_tipo(blocos_spec(j), "tool_use"@);
        &&& r.len() == pedidos.len()
        &&& forall|i: int| 0 <= i < r.len() ==> pedido_ok(#[trigger] r[i], pedidos[i])
        &&& depois.ferramentas_vistas() == antes.ferramentas_vistas() + pedidos.map_values(
            |b: ValorJson| (texto_ou_vazio(b, "id"@), texto_ou_vazio(b, "name"@)),
        )
        &&& depois.id_externo == antes.id_externo
        &&& depois.concluiu == antes.concluiu
        &&& depois.erro_sem_texto == antes.erro_sem_texto
    } else if tipo == "user"@ {
        let resultados = blocos_do_tipo(blocos_spec(j), "tool_result"@);
        &&& r.len() == resultados.len()
        &&& forall|i: int| 0 <= i < r.len() ==> resultado_ok(#[trigger] r[i], resultados[i])
        &&& depois == antes
    } else if tipo == "result"@ {
        let deu_erro = campo_spec(j, "is_error"@) == Some(ValorJson::Booleano(true)) || subtipo
            != "success"@;
        let texto_final = texto_ou_vazio(j, "result"@);
        &&& depois.concluiu
        &&& depois.id_externo == antes.id_externo
        &&& depois.ferramentas_vistas() == antes.ferramentas_vistas()
        &&& r.len() == 1
        &&& if deu_erro {
            &&& r[0] matches EventoAgente::Erro { mensagem, recuperavel } && recuperavel
                && mensagem@ == mensagem_de_erro(texto_final, subtipo)
            &&& depois.erro_sem_texto == (antes.erro_sem_texto || aparado(texto_final).len() == 0)
        } else {
            &&& r[0] matches EventoAgente::TurnoConcluido { texto_final: t, uso } && t@
                == texto_final && uso_ok(uso, j)
            &&& depois.erro_sem_texto == antes.erro_sem_texto
        }
    } else {
        r.len() == 0 && depois == antes
    }
}

// ------------------------------------------------------------------ ajudas

fn campo_ou_nulo_de(v: &serde_json::Value, k: &str) -> (r: serde_json::Value)
    ensures
        conteudo_json(r) == campo_ou_nulo(conteudo_json(*v), k@),
{
    match campo(v, k) {
        Some(x) => x.clone(),
        None => json_nulo(),
    }
}

/// Os blocos de `message.content`.
fn blocos(o: &serde_json::Value) -> (r: Vec<serde_json::Value>)
    ensures
        r@.map_values(|x: serde_json::Value| conteudo_json(x)) == blocos_spec(conteudo_json(*o)),
{
    let m = campo_ou_nulo_de(o, "message");
    match campo(&m, "content") {
        Some(c) => match como_lista(c) {
            Some(l) => {
                let mut r: Vec<serde_json::Value> = Vec::new();
                let mut i: usize = 0;
                while i < l.len()
                    invariant
                        i <= l@.len(),
                        r@.map_values(|x: serde_json::Value| conteudo_json(x)) == l@.map_values(
                            |x: serde_json::Value| conteudo_json(x),
                        ).take(i as int),
                    decreases l@.len() - i,
                {
                    let ghost antes = r@;
                    r.push(l[i].clone());
                    proof {
                        assert(r@.map_values(|x: serde_json::Value| conteudo_json(x)) == antes.map_values(
                            |x: serde_json::Value| conteudo_json(x),
                        ).push(conteudo_json(l@[i as int])));
                        assert(l@.map_values(|x: serde_json::Value| conteudo_json(x)).take(i + 1)
                            == l@.map_values(|x: serde_json::Value| conteudo_json(x)).take(
                            i as int,
                        ).push(conteudo_json(l@[i as int])));
                    }
                    i = i + 1;
                }
                proof {
                    let s = l@.map_values(|x: serde_json::Value| conteudo_json(x));
                    assert(s.take(s.len() as int) == s);
                }
                r
            },
            None => Vec::new(),
        },
        None => Vec::new(),
    }
}

/// O bloco é do tipo dado?
fn bloco_e_do_tipo(b: &serde_json::Value, tipo: &str) -> (r: bool)
    ensures
        r == (campo_spec(conteudo_json(*b), "type"@) == Some(ValorJson::Texto(tipo@))),
{
    match texto_do_campo(b, "type") {
        Some(t) => iguais(t, tipo),
        None => false,
    }
}

/// Conteúdo de resultado de ferramenta como texto legível. A CLI manda ora
/// uma string, ora um vetor de blocos.
fn como_texto(v: &serde_json::Value) -> (r: Vec<char>)
    ensures
        r@ == legivel(conteudo_json(*v)),
{
    if let Some(s) = como_str(v) {
        return chars_de(s);
    }
    if let Some(bs) = como_lista(v) {
        let ghost l = bs@.map_values(|x: serde_json::Value| conteudo_json(x));
        let mut partes: Vec<Vec<char>> = Vec::new();
        let mut i: usize = 0;
        while i < bs.len()
            invariant
                i <= bs@.len(),
                l == bs@.map_values(|x: serde_json::Value| conteudo_json(x)),
                partes@.map_values(|p: Vec<char>| p@) == textos_dos_blocos(l.take(i as int)),
            decreases bs@.len() - i,
        {
            let ghost antes = partes@;
            proof {
                assert(l.take(i + 1).drop_last() == l.take(i as int));
                assert(l.take(i + 1).last() == conteudo_json(bs@[i as int]));
            }
            match texto_do_campo(&bs[i], "text") {
                Some(t) => {
                    partes.push(chars_de(t));
                    proof {
                        assert(partes@.map_values(|p: Vec<char>| p@) == antes.map_values(
                            |p: Vec<char>| p@,
                        ).push(t@));
                    }
                },
                None => {},
            }
            i = i + 1;
        }
        proof {
            assert(l.take(l.len() as int) == l);
        }
        return juntar_chars(&partes, "\n");
    }
    if e_nulo(v) {
        return Vec::new();
    }
    let t = serializar(v);
    chars_de(t.as_str())
}

/// Resultado de ferramenta encolhido para caber num card.
fn resumir(v: &serde_json::Value) -> (r: serde_json::Value)
    ensures
        conteudo_json(r) == resumo_spec(conteudo_json(*v)),
{
    let t = como_texto(v);
    if t.len() <= 2000 {
        let s = string_de(&t);
        let mut ps: Vec<(String, serde_json::Value)> = Vec::new();
        ps.push(par("conteudo", json_texto(s.as_str())));
        assert(ps@.map_values(|p: (String, serde_json::Value)| (p.0@, conteudo_json(p.1)))
            =~= seq![("conteudo"@, ValorJson::Texto(t@))]);
        return json_objeto(ps);
    }
    let corte = string_de(&primeiros(&t, 2000));
    let inteiro = string_de(&t);
    let bytes = inteiro.as_str().len();
    let mut ps: Vec<(String, serde_json::Value)> = Vec::new();
    ps.push(par("conteudo", json_texto(corte.as_str())));
    ps.push(par("truncado", json_bool(true)));
    ps.push(par("bytes", json_u64(bytes as u64)));
    assert(ps@.map_values(|p: (String, serde_json::Value)| (p.0@, conteudo_json(p.1))) =~= seq![
        ("conteudo"@, ValorJson::Texto(t@.take(2000))),
        ("truncado"@, ValorJson::Booleano(true)),
        ("bytes"@, ValorJson::Inteiro(((bytes_utf8(t@) as usize) as u64) as int)),
    ]);
    json_objeto(ps)
}

fn tokens(o: &serde_json::Value, k: &str) -> (r: i64)
    ensures
        r == tokens_de(conteudo_json(*o), k@),
{
    let u = campo_ou_nulo_de(o, "usage");
    match campo(&u, k) {
        Some(x) => match como_i64(x) {
            Some(n) => n,
            None => 0,
        },
        None => 0,
    }
}

/// Consumo e custo de um turno, do jeito que a CLI reporta.
fn uso_do_resultado(o: &serde_json::Value) -> (r: Uso)
    ensures
        uso_ok(r, conteudo_json(*o)),
{
    let entrada = tokens(o, "input_tokens").wrapping_add(
        tokens(o, "cache_creation_input_tokens"),
    ).wrapping_add(tokens(o, "cache_read_input_tokens"));
    let custo = match campo(o, "total_cost_usd") {
        Some(c) => Some(c.clone()),
        None => None,
    };
    Uso { tokens_entrada: entrada, tokens_saida: tokens(o, "output_tokens"), custo_usd: custo }
}

// ----------------------------------------------------------------- tradução

/// Traduz uma linha do JSONL da CLI para zero ou mais eventos do Mutirão.
///
/// Texto que não é JSON não produz nada e não muda a tradução.
pub fn traduzir(linha: &str, t: &mut Traducao) -> (r: Vec<EventoAgente>)
    ensures
        match json_de_texto(linha@) {
            None => r@.len() == 0 && *final(t) == *old(t),
            Some(j) => traducao_ok(j, *old(t), *final(t), r@),
        },
{
    let o = match analisar_json(linha) {
        Some(o) => o,
        None => return Vec::new(),
    };
    let tipo = texto_ou_vazio_de(&o, "type");
    let subtipo = texto_ou_vazio_de(&o, "subtype");
    let mut r: Vec<EventoAgente> = Vec::new();

    if iguais(tipo.as_str(), "system") && iguais(subtipo.as_str(), "init") {
        let id = texto_ou_vazio_de(&o, "session_id");
        let ferramentas = textos_do_campo(&o, "tools");
        let id2 = id.clone();
        t.id_externo = Some(id2);

        r.push(
            EventoAgente::SessaoIniciada {
                id_externo: id,
                modelo: texto_ou_vazio_de(&o, "model"),
                ferramentas,
            },
        );
        assert(t.ferramentas_vistas() == old(t).ferramentas_vistas());
        return r;
    }
    if iguais(tipo.as_str(), "system") && iguais(subtipo.as_str(), "task_summary") {
        match texto_do_campo(&o, "detail") {
            Some(d) => {
                if !em_branco(d) {
                    r.push(EventoAgente::Raciocinando { resumo: d.to_string() });
                }
            },
            None => {},
        }
        return r;
    }
    if iguais(tipo.as_str(), "stream_event") {
        let ev = campo_ou_nulo_de(&o, "event");
        let delta = campo_ou_nulo_de(&ev, "delta");
        match texto_do_campo(&delta, "type") {
            Some(tp) => {
                if iguais(tp, "text_delta") {
                    match texto_do_campo(&delta, "text") {
                        Some(s) => {
                            if !s.is_empty() {
                                r.push(EventoAgente::TextoParcial { delta: s.to_string() });
                            }
                        },
                        None => {},
                    }
                }
            },
            None => {},
        }
        return r;
    }
    if iguais(tipo.as_str(), "assistant") {
        let bs = blocos(&o);
        let ghost bm = bs@.map_values(|x: serde_json::Value| conteudo_json(x));
        let ghost vistas = t.ferramentas_vistas();

        let mut i: usize = 0;
        while i < bs.len()
            invariant
                i <= bs@.len(),
                bm == bs@.map_values(|x: serde_json::Value| conteudo_json(x)),
                r@.len() == blocos_do_tipo(bm.take(i as int), "tool_use"@).len(),
                forall|k: int|
                    0 <= k < r@.len() ==> pedido_ok(
                        #[trigger] r@[k],
                        blocos_do_tipo(bm.take(i as int), "tool_use"@)[k],
                    ),
                t.ferramentas_vistas() == vistas + blocos_do_tipo(
                    bm.take(i as int),
                    "tool_use"@,
                ).map_values(|b: ValorJson| (texto_ou_vazio(b, "id"@), texto_ou_vazio(b, "name"@))),
                t.id_externo == old(t).id_externo,
                t.concluiu == old(t).concluiu,
                t.erro_sem_texto == old(t).erro_sem_texto,
                vistas == old(t).ferramentas_vistas(),
            decreases bs@.len() - i,
        {
            let ghost pedidos_antes = blocos_do_tipo(bm.take(i as int), "tool_use"@);
            let ghost r_antes = r@;
            let ghost f_antes = t.ferramentas_vistas();
            proof {
                assert(bm.take(i + 1).drop_last() == bm.take(i as int));
                assert(bm.take(i + 1).last() == conteudo_json(bs@[i as int]));
            }
            if bloco_e_do_tipo(&bs[i], "tool_use") {
                let id = texto_ou_vazio_de(&bs[i], "id");
                let nome = texto_ou_vazio_de(&bs[i], "name");
                let argumentos = match campo(&bs[i], "input") {
                    Some(a) => a.clone(),
                    None => json_objeto_vazio(),
                };
                t.ferramentas.push((id.clone(), nome.clone()));
                r.push(EventoAgente::FerramentaPedida { id, nome, argumentos });
                proof {
                    let b = conteudo_json(bs@[i as int]);
                    let novos = blocos_do_tipo(bm.take(i + 1), "tool_use"@);
                    assert(novos == pedidos_antes.push(b));
                    assert(t.ferramentas_vistas() == f_antes.push(
                        (texto_ou_vazio(b, "id"@), texto_ou_vazio(b, "name"@)),
                    ));
                    assert(novos.map_values(
                        |b: ValorJson| (texto_ou_vazio(b, "id"@), texto_ou_vazio(b, "name"@)),
                    ) == pedidos_antes.map_values(
                        |b: ValorJson| (texto_ou_vazio(b, "id"@), texto_ou_vazio(b, "name"@)),
                    ).push((texto_ou_vazio(b, "id"@), texto_ou_vazio(b, "name"@))));
                    assert forall|k: int| 0 <= k < r@.len() implies pedido_ok(
                        #[trigger] r@[k],
                        novos[k],
                    ) by {
                        if k < r_antes.len() {
                            assert(r@[k] == r_antes[k]);
                        }
                    }
                }
            }
            i = i + 1;
        }
        proof {
            assert(bm.take(bm.len() as int) == bm);
        }
        return r;
    }
    if iguais(tipo.as_str(), "user") {
        let bs = blocos(&o);
        let ghost bm = bs@.map_values(|x: serde_json::Value| conteudo_json(x));
        let mut i: usize = 0;
        while i < bs.len()
            invariant
                i <= bs@.len(),
                bm == bs@.map_values(|x: serde_json::Value| conteudo_json(x)),
                r@.len() == blocos_do_tipo(bm.take(i as int), "tool_result"@).len(),
                forall|k: int|
                    0 <= k < r@.len() ==> resultado_ok(
                        #[trigger] r@[k],
                        blocos_do_tipo(bm.take(i as int), "tool_result"@)[k],
                    ),
            decreases bs@.len() - i,
        {
            let ghost antes = blocos_do_tipo(bm.take(i as int), "tool_result"@);
            let ghost r_antes = r@;
            proof {
                assert(bm.take(i + 1).drop_last() == bm.take(i as int));
                assert(bm.take(i + 1).last() == conteudo_json(bs@[i as int]));
            }
            if bloco_e_do_tipo(&bs[i], "tool_result") {
                let id = texto_ou_vazio_de(&bs[i], "tool_use_id");
                let conteudo = campo_ou_nulo_de(&bs[i], "content");
                let falhou = match campo(&bs[i], "is_error") {
                    Some(x) => match como_bool(x) {
                        Some(b) => b,
                        None => false,
                    },
                    None => false,
                };
                if falhou {
                    let m = string_de(&como_texto(&conteudo));
                    r.push(EventoAgente::FerramentaConcluida { id, resultado: None, erro: Some(m) });
                } else {
                    let v = resumir(&conteudo);
                    r.push(EventoAgente::FerramentaConcluida { id, resultado: Some(v), erro: None });
                }
                proof {
                    let novos = blocos_do_tipo(bm.take(i + 1), "tool_result"@);
                    assert(novos == antes.push(conteudo_json(bs@[i as int])));
                    assert forall|k: int| 0 <= k < r@.len() implies resultado_ok(
                        #[trigger] r@[k],
                        novos[k],
                    ) by {
                        if k < r_antes.len() {
                            assert(r@[k] == r_antes[k]);
                        }
                    }
                }
            }
            i = i + 1;
        }
        proof {
            assert(bm.take(bm.len() as int) == bm);
        }
        return r;
    }
    if iguais(tipo.as_str(), "result") {
        t.concluiu = true;
        let erro_marcado = match campo(&o, "is_error") {
            Some(x) => match como_bool(x) {
                Some(b) => b,
                None => false,
            },
            None => false,
        };
        let deu_erro = erro_marcado || !iguais(subtipo.as_str(), "success");
        let texto_final = texto_ou_vazio_de(&o, "result");
        if deu_erro {
            let mensagem = if em_branco(texto_final.as_str()) {
                t.erro_sem_texto = true;
                let mut v: Vec<char> = Vec::new();
                anexar(&mut v, "O agente terminou com erro (");
                anexar(&mut v, subtipo.as_str());
                anexar(&mut v, ").");
                string_de(&v)
            } else {
                texto_final
            };
            r.push(EventoAgente::Erro { mensagem, recuperavel: true });
            return r;
        }
        let uso = uso_do_resultado(&o);
        r.push(EventoAgente::TurnoConcluido { texto_final, uso });
        return r;
    }
    r
}

// ---------------------------------------------------------------- adaptador

/// Leitura, liberada sem card. Escrita não está aqui de propósito: a única
/// porta para gravar é o hook de aprovação; se ele deixar de disparar, a
/// gravação é recusada em vez de passar batida.
pub const FERRAMENTAS_SEM_CARD: [&'static str; 3] = ["Read", "Glob", "Grep"];

/// Só leitura, para quando não há barramento no ar.
pub const FERRAMENTAS_SO_LEITURA: &'static str = "Read,Glob,Grep";

/// Prazo de um turno, em segundos. Sem ele, uma CLI travada deixa o nó
/// pensando para sempre.
pub const PRAZO_PADRAO_S: u64 = 600;

/// Cria adaptadores da CLI do agente com um binário escolhido.
#[derive(Debug, Clone)]
pub struct FabricaClaude {
    binario: String,
}

impl FabricaClaude {
    /// O binário que esta fábrica roda.
    pub closed spec fn binario_spec(&self) -> Seq<char> {
        self.binario@
    }

    pub fn com_binario(binario: &str) -> (r: FabricaClaude)
        ensures
            r.binario_spec() == binario@,
    {
        FabricaClaude { binario: binario.to_string() }
    }

    /// A fábrica do binário que o ambiente aponta (`MUTIRAO_CLI_BIN`), se ele
    /// aponta algum; sem ele não há CLI configurada.
    pub fn do_ambiente(valor: Option<String>) -> (r: Option<FabricaClaude>)
        ensures
            match valor {
                Some(v) => r matches Some(f) && f.binario_spec() == v@,
                None => r is None,
            },
    {
        match valor {
            Some(v) => Some(FabricaClaude { binario: v }),
            None => None,
        }
    }

    pub fn binario(&self) -> (r: &str)
        ensures
            r@ == self.binario_spec(),
    {
        self.binario.as_str()
    }
}

/// As que não gravam, na ordem.
pub open spec fn sem_gravar(fs: Seq<Seq<char>>) -> Seq<Seq<char>>
    decreases fs.len(),
{
    if fs.len() == 0 {
        Seq::empty()
    } else if crate::ferramentas::grava(fs.last()) {
        sem_gravar(fs.drop_last())
    } else {
        sem_gravar(fs.drop_last()).push(fs.last())
    }
}

/// Uma opção com valor, quando há valor.
pub open spec fn opcao(flag: Seq<char>, valor: Option<Seq<char>>) -> Seq<Seq<char>> {
    match valor {
        Some(v) => Seq::empty().push(flag).push(v),
        None => Seq::empty(),
    }
}

/// A autonomia que vale para um papel; sem papel, o conjunto completo.
pub open spec fn autonomia_de(papel: Option<Papel>) -> Autonomia {
    match papel {
        Some(p) => p.autonomia,
        None => Autonomia::Solto,
    }
}

/// Os argumentos da CLI de um turno.
///
/// O prompt não vai na linha de comando (vai pela entrada padrão), nem o
/// token: a linha de comando de um processo é legível por qualquer outro do
/// mesmo usuário, e por isso hook e MCP vão em arquivo. Sem o `--settings`
/// do hook, as nativas ficam em leitura.
pub open spec fn argumentos_spec(
    papel: Option<Papel>,
    settings: Option<Seq<char>>,
    mcp: Option<Seq<char>>,
    retomar: Option<Seq<char>>,
) -> Seq<Seq<char>> {
    let nativas = if settings is Some {
        juntar(nativas_spec(autonomia_de(papel)), ","@)
    } else {
        FERRAMENTAS_SO_LEITURA@
    };
    let do_barramento = if mcp is Some {
        sem_gravar(ferramentas_spec(papel)).map_values(|f: Seq<char>| nome_completo_spec(f))
    } else {
        Seq::empty()
    };
    Seq::empty().push("--print"@).push("--output-format"@).push("stream-json"@).push(
        "--include-partial-messages"@,
    ).push("--verbose"@).push("--restricted"@).push("--tools"@).push(nativas).push(
        "--allowedTools"@,
    ).push("Read"@).push("Glob"@).push("Grep"@) + do_barramento + Seq::empty().push(
        "--strict-mcp-config"@,
    ) + opcao("--mcp-config"@, mcp) + opcao("--settings"@, settings) + opcao("--resume"@, retomar)
}

fn por(v: &mut Vec<String>, s: &str)
    ensures
        final(v)@.map_values(|x: String| x@) == old(v)@.map_values(|x: String| x@).push(s@),
{
    let ghost antes = v@;
    v.push(s.to_string());
    proof {
        assert(v@.map_values(|x: String| x@) =~= antes.map_values(|x: String| x@).push(s@));
    }
}

fn por_opcao(v: &mut Vec<String>, flag: &str, valor: Option<&str>)
    ensures
        final(v)@.map_values(|x: String| x@) == old(v)@.map_values(|x: String| x@) + opcao(
            flag@,
            match valor {
                Some(x) => Some(x@),
                None => None,
            },
        ),
{
    let ghost antes = v@.map_values(|x: String| x@);
    match valor {
        Some(x) => {
            por(v, flag);
            por(v, x);
            assert(v@.map_values(|x: String| x@) =~= antes + Seq::empty().push(flag@).push(x@));
        },
        None => {
            assert(v@.map_values(|x: String| x@) =~= antes + Seq::<Seq<char>>::empty());
        },
    }
}

/// Os argumentos da CLI de um turno: `settings` é o arquivo do hook de
/// aprovação, `mcp` o da configuração MCP, `retomar` o id da conversa a
/// continuar.
pub fn argumentos_da_cli(
    papel: Option<&Papel>,
    settings: Option<&str>,
    mcp: Option<&str>,
    retomar: Option<&str>,
) -> (r: Vec<String>)
    ensures
        r@.map_values(|x: String| x@) == argumentos_spec(
            match papel {
                Some(p) => Some(*p),
                None => None,
            },
            match settings {
                Some(x) => Some(x@),
                None => None,
            },
            match mcp {
                Some(x) => Some(x@),
                None => None,
            },
            match retomar {
                Some(x) => Some(x@),
                None => None,
            },
        ),
{
    let ghost p = match papel {
        Some(p) => Some(*p),
        None => None,
    };
    let mut r: Vec<String> = Vec::new();
    proof {
        assert(r@.map_values(|x: String| x@) =~= Seq::<Seq<char>>::empty());
    }
    por(&mut r, "--print");
    por(&mut r, "--output-format");
    por(&mut r, "stream-json");
    por(&mut r, "--include-partial-messages");
    por(&mut r, "--verbose");
    por(&mut r, "--restricted");
    por(&mut r, "--tools");
    if settings.is_some() {
        let nativas = nativas_do_papel(papel);
        let mut partes: Vec<Vec<char>> = Vec::new();
        let mut i: usize = 0;
        while i < nativas.len()
            invariant
                i <= nativas@.len(),
                partes@.map_values(|x: Vec<char>| x@) == nativas@.map_values(|s: &str| s@).take(
                    i as int,
                ),
            decreases nativas@.len() - i,
        {
            let ghost antes = partes@;
            partes.push(chars_de(nativas[i]));
            proof {
                assert(partes@.map_values(|x: Vec<char>| x@) == antes.map_values(|x: Vec<char>| x@).push(
                    nativas@[i as int]@,
                ));
                assert(nativas@.map_values(|s: &str| s@).take(i + 1) == nativas@.map_values(
                    |s: &str| s@,
                ).take(i as int).push(nativas@[i as int]@));
            }
            i = i + 1;
        }
        proof {
            assert(nativas@.map_values(|s: &str| s@).take(nativas@.len() as int) == nativas@.map_values(
                |s: &str| s@,
            ));
        }
        let lista = string_de(&juntar_chars(&partes, ","));
        por(&mut r, lista.as_str());
    } else {
        por(&mut r, FERRAMENTAS_SO_LEITURA);
    }
    por(&mut r, "--allowedTools");
    por(&mut r, FERRAMENTAS_SEM_CARD[0]);
    por(&mut r, FERRAMENTAS_SEM_CARD[1]);
    por(&mut r, FERRAMENTAS_SEM_CARD[2]);
    let ghost base = r@.map_values(|x: String| x@);
    if mcp.is_some() {
        let fs = ferramentas_do_papel(papel);
        let ghost fv = fs@.map_values(|s: String| s@);
        let mut i: usize = 0;
        while i < fs.len()
            invariant
                i <= fs@.len(),
                fv == fs@.map_values(|s: String| s@),
                r@.map_values(|x: String| x@) == base + sem_gravar(fv.take(i as int)).map_values(
                    |f: Seq<char>| nome_completo_spec(f),
                ),
            decreases fs@.len() - i,
        {
            proof {
                assert(fv.take(i + 1).drop_last() == fv.take(i as int));
                assert(fv.take(i + 1).last() == fs@[i as int]@);
            }
            if !crate::ferramentas::grava_no_disco(fs[i].as_str()) {
                let ghost antes = r@.map_values(|x: String| x@);
                let n = crate::ferramentas::nome_completo(fs[i].as_str());
                por(&mut r, n.as_str());
                proof {
                    assert(sem_gravar(fv.take(i + 1)) == sem_gravar(fv.take(i as int)).push(fs@[i as int]@));
                    assert(sem_gravar(fv.take(i + 1)).map_values(|f: Seq<char>| nome_completo_spec(f))
                        =~= sem_gravar(fv.take(i as int)).map_values(|f: Seq<char>| nome_completo_spec(f)).push(
                        nome_completo_spec(fs@[i as int]@),
                    ));
                }
            } else {
                proof {
                    assert(sem_gravar(fv.take(i + 1)) == sem_gravar(fv.take(i as int)));
                }
            }
            i = i + 1;
        }
        proof {
            assert(fv.take(fv.len() as int) == fv);
        }
    } else {
        assert(base + Seq::<Seq<char>>::empty() =~= base);
    }
    por(&mut r, "--strict-mcp-config");
    por_opcao(&mut r, "--mcp-config", mcp);
    por_opcao(&mut r, "--settings", settings);
    por_opcao(&mut r, "--resume", retomar);
    proof {
        reveal_strlit("Read");
        reveal_strlit("Glob");
        reveal_strlit("Grep");
        assert(r@.map_values(|x: String| x@) =~= argumentos_spec(
            p,
            match settings {
                Some(x) => Some(x@),
                None => None,
            },
            match mcp {
                Some(x) => Some(x@),
                None => None,
            },
            match retomar {
                Some(x) => Some(x@),
                None => None,
            },
        ));
    }
    r
}

// ------------------------------------------------------------ configuração

/// Um gancho HTTP do `PreToolUse` apontando para o barramento, com o token no
/// cabeçalho e um prazo um minuto maior que o do barramento: quem decide
/// desistir é ele, com uma resposta explicando.
pub open spec fn gancho_spec(url: Seq<char>, token: Seq<char>) -> ValorJson {
    ValorJson::Objeto(
        mapa_de(
            Seq::empty().push(("type"@, ValorJson::Texto("http"@))).push(
                ("url"@, ValorJson::Texto(url)),
            ).push(("headers"@, objeto_de(CABECALHO_TOKEN@, ValorJson::Texto(token)))).push(
                ("timeout"@, ValorJson::Inteiro(PRAZO_APROVACAO_S + 60)),
            ).push(("statusMessage"@, ValorJson::Texto("esperando você aprovar no Mutirão"@))),
        ),
    )
}

/// O `--settings` de uma sessão: o hook de aprovação para tudo que o
/// `matcher` casa.
pub open spec fn settings_spec(url: Seq<char>, token: Seq<char>, matcher: Seq<char>) -> ValorJson {
    objeto_de(
        "hooks"@,
        objeto_de(
            "PreToolUse"@,
            ValorJson::Lista(
                Seq::empty().push(
                    ValorJson::Objeto(
                        mapa_de(
                            Seq::empty().push(("matcher"@, ValorJson::Texto(matcher))).push(
                                ("hooks"@, ValorJson::Lista(Seq::empty().push(gancho_spec(url, token)))),
                            ),
                        ),
                    ),
                ),
            ),
        ),
    )
}

/// O conteúdo do `--settings` da sessão: o hook `PreToolUse` do tipo HTTP
/// apontando para o barramento, com o token no cabeçalho, para as nativas que
/// pedem licença, as nossas que gravam e as dos servidores de fora do papel.
pub fn settings_do_hook(url: &str, token: &str, servidores: &[ServidorMcp]) -> (r: serde_json::Value)
    ensures
        conteudo_json(r) == settings_spec(url@, token@, juntar(partes_do_matcher(servidores@), "|"@)),
{
    let mut g: Vec<(String, serde_json::Value)> = Vec::new();
    g.push(par("type", json_texto("http")));
    g.push(par("url", json_texto(url)));
    g.push(par("headers", objeto_com(CABECALHO_TOKEN, json_texto(token))));
    g.push(par("timeout", json_u64(PRAZO_APROVACAO_S + 60)));
    g.push(par("statusMessage", json_texto("esperando você aprovar no Mutirão")));
    proof {
        assert(g@.map_values(|p: (String, serde_json::Value)| (p.0@, conteudo_json(p.1)))
            =~= Seq::empty().push(("type"@, ValorJson::Texto("http"@))).push(
            ("url"@, ValorJson::Texto(url@)),
        ).push(("headers"@, objeto_de(CABECALHO_TOKEN@, ValorJson::Texto(token@)))).push(
            ("timeout"@, ValorJson::Inteiro(PRAZO_APROVACAO_S + 60)),
        ).push(("statusMessage"@, ValorJson::Texto("esperando você aprovar no Mutirão"@))));
    }
    let gancho = json_objeto(g);
    let matcher = matcher_do_hook(servidores);
    let mut e: Vec<(String, serde_json::Value)> = Vec::new();
    e.push(par("matcher", json_texto(matcher.as_str())));
    e.push(par("hooks", lista_de_um(gancho)));
    proof {
        assert(e@.map_values(|p: (String, serde_json::Value)| (p.0@, conteudo_json(p.1)))
            =~= Seq::empty().push(("matcher"@, ValorJson::Texto(matcher@))).push(
            ("hooks"@, ValorJson::Lista(Seq::empty().push(gancho_spec(url@, token@)))),
        ));
    }
    objeto_com("hooks", objeto_com("PreToolUse", lista_de_um(json_objeto(e))))
}

/// Um servidor MCP por HTTP, com os cabeçalhos dele.
pub open spec fn servidor_http_spec(url: Seq<char>, cabecalhos: Seq<(Seq<char>, Seq<char>)>) -> ValorJson {
    ValorJson::Objeto(
        mapa_de(
            Seq::empty().push(("type"@, ValorJson::Texto("http"@))).push(
                ("url"@, ValorJson::Texto(url)),
            ).push(
                (
                    "headers"@,
                    ValorJson::Objeto(
                        mapa_de(
                            cabecalhos.map_values(
                                |c: (Seq<char>, Seq<char>)| (c.0, ValorJson::Texto(c.1)),
                            ),
                        ),
                    ),
                ),
            ),
        ),
    )
}

/// O `--mcp-config` de uma sessão: os servidores de fora do papel e, por
/// último, o nosso, com o token. Por último de propósito: um servidor de fora
/// com o nosso nome não toma o lugar dele.
pub open spec fn config_mcp_spec(url_mcp: Seq<char>, token: Seq<char>, servidores: Seq<ServidorMcp>) -> ValorJson {
    objeto_de(
        "mcpServers"@,
        ValorJson::Objeto(
            mapa_de(
                servidores.map_values(
                    |s: ServidorMcp| (
                        s.nome@,
                        servidor_http_spec(
                            s.url@,
                            s.cabecalhos@.map_values(|c: (String, String)| (c.0@, c.1@)),
                        ),
                    ),
                ).push(
                    (
                        "mutirao"@,
                        servidor_http_spec(url_mcp, Seq::empty().push((CABECALHO_TOKEN@, token))),
                    ),
                ),
            ),
        ),
    )
}

fn servidor_http(url: &str, cabecalhos: &Vec<(String, String)>) -> (r: serde_json::Value)
    ensures
        conteudo_json(r) == servidor_http_spec(
            url@,
            cabecalhos@.map_values(|c: (String, String)| (c.0@, c.1@)),
        ),
{
    let ghost cv = cabecalhos@.map_values(|c: (String, String)| (c.0@, c.1@));
    let mut hs: Vec<(String, serde_json::Value)> = Vec::new();
    let mut i: usize = 0;
    while i < cabecalhos.len()
        invariant
            i <= cabecalhos@.len(),
            cv == cabecalhos@.map_values(|c: (String, String)| (c.0@, c.1@)),
            hs@.map_values(|p: (String, serde_json::Value)| (p.0@, conteudo_json(p.1)))
                == cv.map_values(|c: (Seq<char>, Seq<char>)| (c.0, ValorJson::Texto(c.1))).take(
                i as int,
            ),
        decreases cabecalhos@.len() - i,
    {
        let ghost antes = hs@;
        hs.push(par(cabecalhos[i].0.as_str(), json_texto(cabecalhos[i].1.as_str())));
        proof {
            let f = |p: (String, serde_json::Value)| (p.0@, conteudo_json(p.1));
            let g = |c: (Seq<char>, Seq<char>)| (c.0, ValorJson::Texto(c.1));
            assert(hs@.map_values(f) == antes.map_values(f).push(g(cv[i as int])));
            assert(cv.map_values(g).take(i + 1) == cv.map_values(g).take(i as int).push(
                g(cv[i as int]),
            ));
        }
        i = i + 1;
    }
    proof {
        let g = |c: (Seq<char>, Seq<char>)| (c.0, ValorJson::Texto(c.1));
        assert(cv.map_values(g).take(cv.len() as int) == cv.map_values(g));
    }
    let headers = json_objeto(hs);
    let ghost jh = conteudo_json(headers);
    let mut ps: Vec<(String, serde_json::Value)> = Vec::new();
    ps.push(par("type", json_texto("http")));
    ps.push(par("url", json_texto(url)));
    ps.push(par("headers", headers));
    proof {
        assert(ps@.map_values(|p: (String, serde_json::Value)| (p.0@, conteudo_json(p.1)))
            =~= Seq::empty().push(("type"@, ValorJson::Texto("http"@))).push(
            ("url"@, ValorJson::Texto(url@)),
        ).push(("headers"@, jh)));
    }
    json_objeto(ps)
}

/// O conteúdo do `--mcp-config` de uma sessão.
pub fn config_mcp(url_mcp: &str, token: &str, servidores: &[ServidorMcp]) -> (r: serde_json::Value)
    ensures
        conteudo_json(r) == config_mcp_spec(url_mcp@, token@, servidores@),
{
    let ghost alvo = servidores@.map_values(
        |s: ServidorMcp| (
            s.nome@,
            servidor_http_spec(s.url@, s.cabecalhos@.map_values(|c: (String, String)| (c.0@, c.1@))),
        ),
    );
    let mut ps: Vec<(String, serde_json::Value)> = Vec::new();
    let mut i: usize = 0;
    while i < servidores.len()
        invariant
            i <= servidores@.len(),
            alvo == servidores@.map_values(
                |s: ServidorMcp| (
                    s.nome@,
                    servidor_http_spec(
                        s.url@,
                        s.cabecalhos@.map_values(|c: (String, String)| (c.0@, c.1@)),
                    ),
                ),
            ),
            ps@.map_values(|p: (String, serde_json::Value)| (p.0@, conteudo_json(p.1))) == alvo.take(
                i as int,
            ),
        decreases servidores@.len() - i,
    {
        let ghost antes = ps@;
        let s = &servidores[i];
        ps.push(par(s.nome.as_str(), servidor_http(s.url.as_str(), &s.cabecalhos)));
        proof {
            let f = |p: (String, serde_json::Value)| (p.0@, conteudo_json(p.1));
            assert(ps@.map_values(f) == antes.map_values(f).push(alvo[i as int]));
            assert(alvo.take(i + 1) == alvo.take(i as int).push(alvo[i as int]));
        }
        i = i + 1;
    }
    let mut nosso: Vec<(String, String)> = Vec::new();
    nosso.push((CABECALHO_TOKEN.to_string(), token.to_string()));
    proof {
        assert(nosso@.map_values(|c: (String, String)| (c.0@, c.1@)) =~= Seq::empty().push(
            (CABECALHO_TOKEN@, token@),
        ));
    }
    let ghost antes = ps@;
    ps.push(par("mutirao", servidor_http(url_mcp, &nosso)));
    proof {
        let f = |p: (String, serde_json::Value)| (p.0@, conteudo_json(p.1));
        assert(alvo.take(alvo.len() as int) == alvo);
        assert(ps@.map_values(f) =~= alvo.push(
            (
                "mutirao"@,
                servidor_http_spec(url_mcp@, Seq::empty().push((CABECALHO_TOKEN@, token@))),
            ),
        ));
    }
    objeto_com("mcpServers", json_objeto(ps))
}

// ----------------------------------------------------------------- desfecho

/// Um evento de erro recuperável.
pub open spec fn erro_recuperavel(e: EventoAgente, mensagem: Seq<char>) -> bool {
    e matches EventoAgente::Erro { mensagem: m, recuperavel } && m@ == mensagem && recuperavel
}

/// Um erro que chegou sem texto espera o fim do stderr em vez de sair já: a
/// frase que o usuário precisa ler está lá.
pub fn deve_adiar(t: &Traducao, e: &EventoAgente) -> (r: bool)
    ensures
        r == (t.erro_sem_texto && *e is Erro),
{
    t.erro_sem_texto && match e {
        EventoAgente::Erro { .. } => true,
        _ => false,
    }
}

/// A última linha do stderr aparado, ou vazio. É a que diz o que houve.
pub open spec fn ultima_linha_spec(erros: Seq<char>) -> Seq<char> {
    let ls = linhas(aparado(erros));
    if ls.len() == 0 {
        Seq::empty()
    } else {
        ls.last()
    }
}

pub fn ultima_linha(erros: &str) -> (r: String)
    ensures
        r@ == ultima_linha_spec(erros@),
{
    let limpo = crate::texto::aparar_chars(&chars_de(erros), crate::texto::Corte::Espaco);
    let ls = partir_linhas(&limpo);
    if ls.len() == 0 {
        String::new()
    } else {
        string_de(&ls[ls.len() - 1])
    }
}

/// O que mandar quando a saída do processo acabou.
///
/// Um erro adiado sai agora, com a última linha do stderr no lugar da frase
/// genérica quando há uma. Sem sino e sem erro, o processo morreu por fora:
/// alguém precisa dizer isso, senão o turno fica pendurado. Com sino, nada.
pub fn desfecho_do_turno(
    adiado: Option<(String, bool)>,
    concluiu: bool,
    detalhe: &str,
    codigo: &str,
) -> (r: Option<EventoAgente>)
    ensures
        match adiado {
            Some((m, rec)) => r matches Some(EventoAgente::Erro { mensagem, recuperavel })
                && recuperavel == rec && mensagem@ == (if detalhe@.len() == 0 {
                m@
            } else {
                detalhe@
            }),
            None => if concluiu {
                r is None
            } else {
                r matches Some(e) && erro_recuperavel(
                    e,
                    if detalhe@.len() == 0 {
                        "A CLI do agente saiu sem terminar o turno ("@ + codigo@ + ")."@
                    } else {
                        detalhe@
                    },
                )
            },
        },
{
    let vazio = chars_de(detalhe).len() == 0;
    match adiado {
        Some((m, rec)) => {
            let mensagem = if vazio {
                m
            } else {
                detalhe.to_string()
            };
            Some(EventoAgente::Erro { mensagem, recuperavel: rec })
        },
        None => {
            if concluiu {
                return None;
            }
            let mensagem = if vazio {
                let mut v: Vec<char> = Vec::new();
                anexar(&mut v, "A CLI do agente saiu sem terminar o turno (");
                anexar(&mut v, codigo);
                anexar(&mut v, ").");
                string_de(&v)
            } else {
                detalhe.to_string()
            };
            Some(EventoAgente::Erro { mensagem, recuperavel: true })
        },
    }
}

/// O erro que o cão de guarda manda quando o prazo do turno estoura: os
/// minutos inteiros do prazo.
pub fn aviso_de_prazo(prazo_s: u64) -> (r: EventoAgente)
    ensures
        erro_recuperavel(
            r,
            "O agente passou de "@ + decimal((prazo_s / 60) as nat) + " minutos sem terminar o turno."@,
        ),
{
    let mut v: Vec<char> = Vec::new();
    anexar(&mut v, "O agente passou de ");
    let n = escrever_decimal(prazo_s / 60);
    crate::texto::anexar_chars(&mut v, &n);
    anexar(&mut v, " minutos sem terminar o turno.");
    EventoAgente::Erro { mensagem: string_de(&v), recuperavel: true }
}

// ------------------------------------------------------------------- leis

/// Um bloco de texto de um resultado de ferramenta: `{"type": "text", "text": t}`.
pub open spec fn bloco_de_texto(t: Seq<char>) -> ValorJson {
    ValorJson::Objeto(
        Map::<Seq<char>, ValorJson>::empty().insert("type"@, ValorJson::Texto("text"@)).insert(
            "text"@,
            ValorJson::Texto(t),
        ),
    )
}

proof fn lema_textos_dos_blocos(ts: Seq<Seq<char>>)
    ensures
        textos_dos_blocos(ts.map_values(|t: Seq<char>| bloco_de_texto(t))) == ts,
    decreases ts.len(),
{
    let f = |t: Seq<char>| bloco_de_texto(t);
    if ts.len() == 0 {
        assert(ts.map_values(f) =~= Seq::<ValorJson>::empty());
        assert(ts =~= Seq::<Seq<char>>::empty());
    } else {
        lema_textos_dos_blocos(ts.drop_last());
        assert(ts.map_values(f).drop_last() =~= ts.drop_last().map_values(f));
        reveal_strlit("type");
        reveal_strlit("text");
        assert("type"@[1] != "text"@[1]);
        assert(campo_spec(ts.map_values(f).last(), "text"@) == Some(ValorJson::Texto(ts.last())));
        assert(ts.drop_last().push(ts.last()) =~= ts);
    }
}

/// Um resultado de ferramenta em blocos de texto chega como os textos dos
/// blocos, na ordem, um por linha: o modelo e o card leem o que a ferramenta
/// escreveu, não o JSON dos blocos.
pub proof fn lei_blocos_viram_linhas(ts: Seq<Seq<char>>)
    ensures
        legivel(ValorJson::Lista(ts.map_values(|t: Seq<char>| bloco_de_texto(t)))) == juntar(ts, "\n"@),
{
    lema_textos_dos_blocos(ts);
}

} // verus!
